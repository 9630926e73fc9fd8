//! Little-endian byte codecs shared by every packed record in this crate.
//! A value's wire form is defined by the spec functions `le_bytes` and
//! `le_value`; the executable readers and writers are proved against them.

use vstd::arithmetic::div_mod::{
    lemma_div_denominator, lemma_fundamental_div_mod, lemma_multiply_divide_lt,
};
use vstd::prelude::*;

verus! {

/// `256^n`, the number of values a little-endian field of `n` bytes can hold.
pub open spec fn pow256(n: nat) -> int
    decreases n,
{
    if n == 0 {
        1
    } else {
        256 * pow256((n - 1) as nat)
    }
}

/// The value of the `n`-byte little-endian field of `b` starting at `off`.
pub open spec fn le_value(b: Seq<u8>, off: int, n: nat) -> int
    decreases n,
{
    if n == 0 {
        0
    } else {
        b[off] + 256 * le_value(b, off + 1, (n - 1) as nat)
    }
}

/// The `n`-byte little-endian form of `v`.
pub open spec fn le_bytes(v: int, n: nat) -> Seq<u8>
    decreases n,
{
    if n == 0 {
        Seq::empty()
    } else {
        seq![(v % 256) as u8] + le_bytes(v / 256, (n - 1) as nat)
    }
}

pub proof fn lemma_pow256_values()
    ensures
        pow256(0) == 1,
        pow256(1) == 0x100,
        pow256(2) == 0x1_0000,
        pow256(3) == 0x100_0000,
        pow256(4) == 0x1_0000_0000,
        pow256(5) == 0x100_0000_0000,
        pow256(6) == 0x1_0000_0000_0000,
        pow256(7) == 0x100_0000_0000_0000,
        pow256(8) == 0x1_0000_0000_0000_0000,
{
    assert(pow256(0) == 1);
    assert(pow256(1) == 0x100);
    assert(pow256(2) == 0x1_0000);
    assert(pow256(3) == 0x100_0000);
    assert(pow256(4) == 0x1_0000_0000);
    assert(pow256(5) == 0x100_0000_0000);
    assert(pow256(6) == 0x1_0000_0000_0000);
    assert(pow256(7) == 0x100_0000_0000_0000);
    assert(pow256(8) == 0x1_0000_0000_0000_0000);
}

pub proof fn lemma_le_value_bound(b: Seq<u8>, off: int, n: nat)
    ensures
        0 <= le_value(b, off, n) < pow256(n),
    decreases n,
{
    if n > 0 {
        lemma_le_value_bound(b, off + 1, (n - 1) as nat);
        assert(256 * le_value(b, off + 1, (n - 1) as nat) <= 256 * (pow256((n - 1) as nat) - 1))
            by (nonlinear_arith)
            requires
                le_value(b, off + 1, (n - 1) as nat) <= pow256((n - 1) as nat) - 1,
        ;
        assert(256 * le_value(b, off + 1, (n - 1) as nat) >= 0) by (nonlinear_arith)
            requires
                le_value(b, off + 1, (n - 1) as nat) >= 0,
        ;
    }
}

pub proof fn lemma_le_bytes_len(v: int, n: nat)
    ensures
        le_bytes(v, n).len() == n,
    decreases n,
{
    if n > 0 {
        lemma_le_bytes_len(v / 256, (n - 1) as nat);
    }
}

/// The field value reads the same through any two buffers that agree on it
/// byte for byte.
pub proof fn lemma_le_value_agree(b: Seq<u8>, c: Seq<u8>, offb: int, offc: int, n: nat)
    requires
        forall|j: int| 0 <= j < n ==> #[trigger] b[offb + j] == c[offc + j],
    ensures
        le_value(b, offb, n) == le_value(c, offc, n),
    decreases n,
{
    if n > 0 {
        assert(b[offb + 0] == c[offc + 0]);
        assert forall|j: int| 0 <= j < (n - 1) as nat implies #[trigger] b[offb + 1 + j] == c[
            offc + 1 + j] by {
            assert(b[offb + (j + 1)] == c[offc + (j + 1)]);
        }
        lemma_le_value_agree(b, c, offb + 1, offc + 1, (n - 1) as nat);
    }
}

/// Reading back the little-endian form of a value yields the value.
pub proof fn lemma_le_roundtrip(v: int, n: nat)
    requires
        0 <= v < pow256(n),
    ensures
        le_value(le_bytes(v, n), 0, n) == v,
    decreases n,
{
    if n > 0 {
        let rest = le_bytes(v / 256, (n - 1) as nat);
        let whole = le_bytes(v, n);
        lemma_le_bytes_len(v, n);
        lemma_le_bytes_len(v / 256, (n - 1) as nat);
        assert(v / 256 >= 0) by (nonlinear_arith)
            requires
                v >= 0,
        ;
        assert(v < 256 * pow256((n - 1) as nat));
        lemma_multiply_divide_lt(v, 256, pow256((n - 1) as nat));
        lemma_le_roundtrip(v / 256, (n - 1) as nat);
        assert(forall|j: int| 0 <= j < (n - 1) as nat ==> #[trigger] whole[1 + j] == rest[0 + j]);
        lemma_le_value_agree(whole, rest, 1, 0, (n - 1) as nat);
        lemma_fundamental_div_mod(v, 256);
    }
}

/// The first `i` bytes of a field are the field of the truncated value; the
/// rest encode the quotient.
pub proof fn lemma_le_bytes_split(v: int, n: nat, i: nat)
    requires
        0 <= v,
        i <= n,
    ensures
        le_bytes(v, n) == le_bytes(v, i) + le_bytes(v / pow256(i), (n - i) as nat),
    decreases i,
{
    if i == 0 {
        assert(pow256(0) == 1);
        assert(v / 1 == v);
        assert(le_bytes(v, n) == le_bytes(v, 0) + le_bytes(v, n));
    } else {
        assert(v / 256 >= 0) by (nonlinear_arith)
            requires
                v >= 0,
        ;
        lemma_le_bytes_split(v / 256, (n - 1) as nat, (i - 1) as nat);
        assert(pow256((i - 1) as nat) > 0) by {
            lemma_pow256_pos((i - 1) as nat);
        }
        lemma_div_denominator(v, 256, pow256((i - 1) as nat));
        assert((v / 256) / pow256((i - 1) as nat) == v / (256 * pow256((i - 1) as nat)));
        assert(256 * pow256((i - 1) as nat) == pow256(i));
        assert(le_bytes(v, n) == seq![(v % 256) as u8] + le_bytes(v / 256, (n - 1) as nat));
        assert(le_bytes(v, i) == seq![(v % 256) as u8] + le_bytes(v / 256, (i - 1) as nat));
        assert(le_bytes(v, n) =~= le_bytes(v, i) + le_bytes(v / pow256(i), (n - i) as nat));
    }
}

pub proof fn lemma_pow256_pos(n: nat)
    ensures
        pow256(n) >= 1,
    decreases n,
{
    if n > 0 {
        lemma_pow256_pos((n - 1) as nat);
        assert(256 * pow256((n - 1) as nat) >= 256 * 1) by (nonlinear_arith)
            requires
                pow256((n - 1) as nat) >= 1,
        ;
    }
}

/// Reads the eight-byte little-endian field at `off`.
pub fn read_u64_le(src: &[u8], off: usize) -> (r: u64)
    requires
        off + 8 <= src@.len(),
    ensures
        r as int == le_value(src@, off as int, 8),
{
    proof {
        lemma_pow256_values();
    }
    let len = src.len();
    let mut v: u64 = 0;
    let mut k: usize = 8;
    while k > 0
        invariant
            off + 8 <= len == src@.len(),
            k <= 8,
            v as int == le_value(src@, off + k, (8 - k) as nat),
        decreases k,
    {
        proof {
            lemma_le_value_bound(src@, off + k, (8 - k) as nat);
            lemma_pow256_values();
        }
        k = k - 1;
        v = v * 256 + src[off + k] as u64;
    }
    v
}

/// Appends the eight-byte little-endian form of `v`.
pub fn write_u64_le(dst: &mut Vec<u8>, v: u64)
    ensures
        final(dst)@ == old(dst)@ + le_bytes(v as int, 8),
{
    let mut x: u64 = v;
    let mut i: usize = 0;
    proof {
        lemma_pow256_values();
        assert(dst@ =~= dst@ + le_bytes(v as int, 0));
    }
    while i < 8
        invariant
            i <= 8,
            x as int == v as int / pow256(i as nat),
            dst@ == old(dst)@ + le_bytes(v as int, i as nat),
        decreases 8 - i,
    {
        let ghost prev = dst@;
        let b = (x % 256) as u8;
        dst.push(b);
        proof {
            lemma_le_bytes_split(v as int, (i + 1) as nat, i as nat);
            assert(le_bytes(v as int / pow256(i as nat) / 256, 0) =~= Seq::<u8>::empty());
            assert(le_bytes(v as int / pow256(i as nat), 1) =~= seq![
                ((v as int / pow256(i as nat)) % 256) as u8,
            ] + le_bytes(v as int / pow256(i as nat) / 256, 0));
            assert(le_bytes(v as int / pow256(i as nat), 1) =~= seq![
                ((v as int / pow256(i as nat)) % 256) as u8,
            ]);
            assert(dst@ =~= old(dst)@ + le_bytes(v as int, (i + 1) as nat));
            lemma_pow256_pos(i as nat);
            lemma_div_denominator(v as int, pow256(i as nat), 256);
            assert(pow256(i as nat) * 256 == pow256((i + 1) as nat)) by (nonlinear_arith)
                requires
                    pow256((i + 1) as nat) == 256 * pow256(i as nat),
            ;
        }
        x = x / 256;
        i = i + 1;
    }
}

/// Reads the four-byte little-endian field at `off`.
pub fn read_u32_le(src: &[u8], off: usize) -> (r: u32)
    requires
        off + 4 <= src@.len(),
    ensures
        r as int == le_value(src@, off as int, 4),
{
    proof {
        lemma_pow256_values();
    }
    let len = src.len();
    let mut v: u32 = 0;
    let mut k: usize = 4;
    while k > 0
        invariant
            off + 4 <= len == src@.len(),
            k <= 4,
            v as int == le_value(src@, off + k, (4 - k) as nat),
        decreases k,
    {
        proof {
            lemma_le_value_bound(src@, off + k, (4 - k) as nat);
            lemma_pow256_values();
        }
        k = k - 1;
        v = v * 256 + src[off + k] as u32;
    }
    v
}

/// Appends the four-byte little-endian form of `v`.
pub fn write_u32_le(dst: &mut Vec<u8>, v: u32)
    ensures
        final(dst)@ == old(dst)@ + le_bytes(v as int, 4),
{
    let mut x: u32 = v;
    let mut i: usize = 0;
    proof {
        lemma_pow256_values();
        assert(dst@ =~= dst@ + le_bytes(v as int, 0));
    }
    while i < 4
        invariant
            i <= 4,
            x as int == v as int / pow256(i as nat),
            dst@ == old(dst)@ + le_bytes(v as int, i as nat),
        decreases 4 - i,
    {
        let b = (x % 256) as u8;
        dst.push(b);
        proof {
            lemma_le_bytes_split(v as int, (i + 1) as nat, i as nat);
            assert(le_bytes(v as int / pow256(i as nat) / 256, 0) =~= Seq::<u8>::empty());
            assert(le_bytes(v as int / pow256(i as nat), 1) =~= seq![
                ((v as int / pow256(i as nat)) % 256) as u8,
            ] + le_bytes(v as int / pow256(i as nat) / 256, 0));
            assert(le_bytes(v as int / pow256(i as nat), 1) =~= seq![
                ((v as int / pow256(i as nat)) % 256) as u8,
            ]);
            assert(dst@ =~= old(dst)@ + le_bytes(v as int, (i + 1) as nat));
            lemma_pow256_pos(i as nat);
            lemma_div_denominator(v as int, pow256(i as nat), 256);
            assert(pow256(i as nat) * 256 == pow256((i + 1) as nat)) by (nonlinear_arith)
                requires
                    pow256((i + 1) as nat) == 256 * pow256(i as nat),
            ;
        }
        x = x / 256;
        i = i + 1;
    }
}

} // verus!
