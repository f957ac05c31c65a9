//! Byte-string helpers shared by the ABI parsers and encoders: the
//! big-endian value of a byte sequence, range checks, and conversions
//! between byte strings and machine words.

use vstd::prelude::*;
use vstd::arithmetic::power::pow;
use vstd::arithmetic::mul::*;
use vstd::arithmetic::div_mod::{
    lemma_fundamental_div_mod_converse_div, lemma_fundamental_div_mod_converse_mod,
};
use crate::u256::{U256, pow2_64};

verus! {

/// The big-endian value of a byte string.
pub open spec fn be_val(s: Seq<u8>) -> int
    decreases s.len(),
{
    if s.len() == 0 {
        0
    } else {
        be_val(s.drop_last()) * 256 + s.last()
    }
}

/// Unfolds one step of `pow` at base 256.
pub proof fn lemma_pow256_unfold(n: nat)
    requires
        n >= 1,
    ensures
        pow(256, n) == 256 * pow(256, (n - 1) as nat),
{
    reveal(pow);
}

/// The concrete powers of 256 the byte helpers need.
pub proof fn lemma_pow256_values()
    ensures
        pow(256, 0) == 1,
        pow(256, 4) == 0x1_0000_0000int,
        pow(256, 8) == 0x1_0000_0000_0000_0000int,
        pow(256, 16) == 0x1_0000_0000_0000_0000_0000_0000_0000_0000int,
{
    reveal_with_fuel(pow, 17);
}

pub proof fn lemma_be_val_bound(s: Seq<u8>)
    ensures
        0 <= be_val(s) < pow(256, s.len()),
    decreases s.len(),
{
    if s.len() == 0 {
        lemma_pow256_values();
    } else {
        lemma_be_val_bound(s.drop_last());
        lemma_pow256_unfold(s.len());
        let p = pow(256, (s.len() - 1) as nat);
        assert(be_val(s) == be_val(s.drop_last()) * 256 + s.last());
        lemma_mul_inequality(be_val(s.drop_last()), p - 1, 256);
        assert(be_val(s.drop_last()) * 256 <= (p - 1) * 256);
        lemma_mul_is_distributive_sub_other_way(256, p, 1);
        assert((p - 1) * 256 == p * 256 - 256);
        lemma_mul_is_commutative(256, p);
        lemma_mul_nonnegative(be_val(s.drop_last()), 256);
    }
}

pub proof fn lemma_be_val_zero(s: Seq<u8>)
    requires
        forall|i: int| 0 <= i < s.len() ==> s[i] == 0,
    ensures
        be_val(s) == 0,
    decreases s.len(),
{
    if s.len() == 0 {
    } else {
        lemma_be_val_zero(s.drop_last());
    }
}

pub proof fn lemma_be_val_append(a: Seq<u8>, b: Seq<u8>)
    ensures
        be_val(a + b) == be_val(a) * pow(256, b.len()) + be_val(b),
    decreases b.len(),
{
    if b.len() == 0 {
        assert(a + b =~= a);
        lemma_pow256_values();
        assert(be_val(a) * 1 == be_val(a));
    } else {
        lemma_be_val_append(a, b.drop_last());
        assert((a + b).drop_last() =~= a + b.drop_last());
        assert((a + b).last() == b.last());
        let p = pow(256, (b.len() - 1) as nat);
        lemma_pow256_unfold(b.len());
        assert(pow(256, b.len()) == 256 * p);
        assert(be_val(a + b) == be_val(a + b.drop_last()) * 256 + b.last());
        assert(be_val(a + b.drop_last()) == be_val(a) * p + be_val(b.drop_last()));
        assert((be_val(a) * p + be_val(b.drop_last())) * 256 == (be_val(a) * p) * 256 + be_val(
            b.drop_last(),
        ) * 256) by (nonlinear_arith);
        assert((be_val(a) * p) * 256 == be_val(a) * (256 * p)) by (nonlinear_arith);
        assert(be_val(a + b) == be_val(a) * (256 * p) + (be_val(b.drop_last()) * 256 + b.last()));
    }
}

/// Equality of two byte strings.
pub fn eq_bytes(a: &[u8], b: &[u8]) -> (r: bool)
    ensures
        r == (a@ == b@),
{
    if a.len() != b.len() {
        proof {
            assert(a@.len() != b@.len());
        }
        return false;
    }
    let n = a.len();
    let mut i: usize = 0;
    while i < n
        invariant
            0 <= i <= n,
            n == a@.len() == b@.len(),
            forall|j: int| 0 <= j < i ==> a@[j] == b@[j],
        decreases n - i,
    {
        if a[i] != b[i] {
            return false;
        }
        i += 1;
    }
    proof {
        assert(a@ =~= b@);
    }
    true
}

/// Does every byte of `s[from..to]` equal zero?
pub fn is_zero_range(s: &[u8], from: usize, to: usize) -> (r: bool)
    requires
        from <= to <= s@.len(),
    ensures
        r == (forall|i: int| from <= i < to ==> s@[i] == 0),
{
    let mut i: usize = from;
    while i < to
        invariant
            from <= i <= to <= s@.len(),
            forall|j: int| from <= j < i ==> s@[j] == 0,
        decreases to - i,
    {
        if s[i] != 0 {
            return false;
        }
        i += 1;
    }
    true
}

/// The big-endian value of a byte string of at most 16 bytes.
pub fn be_value_u128(s: &[u8]) -> (r: u128)
    requires
        s@.len() <= 16,
    ensures
        r == be_val(s@),
{
    let n = s.len();
    let mut acc: u128 = 0;
    let mut i: usize = 0;
    proof {
        assert(s@.take(0) =~= Seq::<u8>::empty());
        lemma_pow256_values();
    }
    while i < n
        invariant
            0 <= i <= n,
            n == s@.len() <= 16,
            acc == be_val(s@.take(i as int)),
            acc < pow(256, i as nat),
            pow(256, i as nat) <= pow(256, 16) == 0x1_0000_0000_0000_0000_0000_0000_0000_0000int,
        decreases n - i,
    {
        proof {
            lemma_pow256_values();
            assert(s@.take(i + 1).drop_last() =~= s@.take(i as int));
            assert(s@.take(i + 1).last() == s@[i as int]);
            lemma_pow256_unfold((i + 1) as nat);
            lemma_mul_is_commutative(256, pow(256, i as nat));
            lemma_be_val_bound(s@.take(i + 1));
            vstd::arithmetic::power::lemma_pow_increases(256, (i + 1) as nat, 16);
        }
        acc = acc * 256 + s[i] as u128;
        i += 1;
    }
    proof {
        assert(s@.take(n as int) =~= s@);
    }
    acc
}

/// The big-endian value of a 4-byte string.
pub fn be_u32(s: &[u8]) -> (r: u32)
    requires
        s@.len() == 4,
    ensures
        r == be_val(s@),
{
    proof {
        lemma_pow256_values();
        lemma_be_val_bound(s@);
    }
    be_value_u128(s) as u32
}

/// The big-endian value of an 8-byte string.
pub fn be_u64(s: &[u8]) -> (r: u64)
    requires
        s@.len() == 8,
    ensures
        r == be_val(s@),
{
    proof {
        lemma_pow256_values();
        lemma_be_val_bound(s@);
    }
    be_value_u128(s) as u64
}

/// Reads a 32-byte ABI word as a 32-bit quantity: succeeds exactly when the
/// upper 28 bytes are zero, in which case the result is the word's value.
pub fn be_word_to_u32(s: &[u8]) -> (r: Option<u32>)
    requires
        s@.len() == 32,
    ensures
        r is Some <==> be_val(s@) < 0x1_0000_0000,
        r is Some <==> (forall|i: int| 0 <= i < 28 ==> s@[i] == 0),
        r is Some ==> r.unwrap() == be_val(s@),
{
    proof {
        assert(s@ =~= s@.take(28) + s@.skip(28));
        lemma_be_val_append(s@.take(28), s@.skip(28));
        lemma_be_val_bound(s@.take(28));
        lemma_be_val_bound(s@.skip(28));
        lemma_pow256_values();
    }
    if !is_zero_range(s, 0, 28) {
        proof {
            let i = choose|i: int| 0 <= i < 28 && s@[i] != 0;
            assert(be_val(s@.take(28)) >= 1) by {
                lemma_be_val_nonzero(s@.take(28), i);
            }
            assert(be_val(s@.take(28)) * pow(256, 4) >= pow(256, 4)) by {
                lemma_mul_increases(be_val(s@.take(28)), pow(256, 4));
                lemma_mul_is_commutative(be_val(s@.take(28)), pow(256, 4));
            }
        }
        return None;
    }
    proof {
        lemma_be_val_zero(s@.take(28));
    }
    let tail = vstd::slice::slice_subrange(s, 28, 32);
    Some(be_u32(tail))
}

/// A byte string with a non-zero byte has a non-zero value.
pub proof fn lemma_be_val_nonzero(s: Seq<u8>, i: int)
    requires
        0 <= i < s.len(),
        s[i] != 0,
    ensures
        be_val(s) >= 1,
    decreases s.len(),
{
    if i == s.len() - 1 {
        lemma_be_val_bound(s.drop_last());
        assert(be_val(s.drop_last()) * 256 >= 0) by (nonlinear_arith)
            requires
                be_val(s.drop_last()) >= 0,
        ;
    } else {
        lemma_be_val_nonzero(s.drop_last(), i);
        assert(be_val(s.drop_last()) * 256 >= 256) by (nonlinear_arith)
            requires
                be_val(s.drop_last()) >= 1,
        ;
    }
}

/// The value of a slice of a byte string, read off the whole string's
/// value by place arithmetic.
pub proof fn lemma_be_val_slice(s: Seq<u8>, i: int, j: int)
    requires
        0 <= i <= j <= s.len(),
    ensures
        be_val(s.subrange(i, j)) == (be_val(s) / pow(256, (s.len() - j) as nat)) % pow(256, (j
            - i) as nat),
{
    let n = s.len() as int;
    let head = s.subrange(0, j);
    let tail = s.subrange(j, n);
    let p_tail = pow(256, (n - j) as nat);
    let p_mid = pow(256, (j - i) as nat);
    assert(s =~= head + tail);
    lemma_be_val_append(head, tail);
    lemma_be_val_bound(tail);
    lemma_be_val_bound(head);
    vstd::arithmetic::power::lemma_pow_positive(256, (n - j) as nat);
    vstd::arithmetic::power::lemma_pow_positive(256, (j - i) as nat);
    lemma_fundamental_div_mod_converse_div(be_val(s), p_tail, be_val(head), be_val(tail));
    assert(be_val(s) / p_tail == be_val(head));
    let front = s.subrange(0, i);
    let mid = s.subrange(i, j);
    assert(head =~= front + mid);
    lemma_be_val_append(front, mid);
    lemma_be_val_bound(mid);
    lemma_fundamental_div_mod_converse_mod(be_val(head), p_mid, be_val(front), be_val(mid));
}

/// A byte string has value zero exactly when all its bytes are zero.
pub proof fn lemma_be_val_zero_iff(s: Seq<u8>)
    ensures
        (be_val(s) == 0) <==> (forall|i: int| 0 <= i < s.len() ==> s[i] == 0),
{
    if forall|i: int| 0 <= i < s.len() ==> s[i] == 0 {
        lemma_be_val_zero(s);
    } else {
        let i = choose|i: int| 0 <= i < s.len() && s[i] != 0;
        lemma_be_val_nonzero(s, i);
    }
}

/// Appends the bytes of `src` to `dst`.
pub fn push_bytes(dst: &mut Vec<u8>, src: &[u8])
    ensures
        final(dst)@ == old(dst)@ + src@,
{
    let n = src.len();
    let mut i: usize = 0;
    while i < n
        invariant
            0 <= i <= n,
            n == src@.len(),
            dst@ == old(dst)@ + src@.take(i as int),
        decreases n - i,
    {
        dst.push(src[i]);
        proof {
            assert(old(dst)@ + src@.take(i + 1) =~= (old(dst)@ + src@.take(i as int)).push(
                src@[i as int],
            ));
        }
        i += 1;
    }
    proof {
        assert(src@.take(n as int) =~= src@);
    }
}

/// Appends `count` zero bytes to `dst`.
pub fn push_zeros(dst: &mut Vec<u8>, count: usize)
    ensures
        final(dst)@.len() == old(dst)@.len() + count,
        forall|i: int| 0 <= i < old(dst)@.len() ==> final(dst)@[i] == old(dst)@[i],
        forall|i: int| old(dst)@.len() <= i < final(dst)@.len() ==> final(dst)@[i] == 0,
{
    let mut i: usize = 0;
    while i < count
        invariant
            0 <= i <= count,
            dst@.len() == old(dst)@.len() + i,
            forall|j: int| 0 <= j < old(dst)@.len() ==> dst@[j] == old(dst)@[j],
            forall|j: int| old(dst)@.len() <= j < dst@.len() ==> dst@[j] == 0,
        decreases count - i,
    {
        dst.push(0);
        i += 1;
    }
}

/// Appends the 8-byte big-endian form of `x` to `dst`.
pub fn push_u64_be(dst: &mut Vec<u8>, x: u64)
    ensures
        final(dst)@.len() == old(dst)@.len() + 8,
        final(dst)@.take(old(dst)@.len() as int) == old(dst)@,
        be_val(final(dst)@.skip(old(dst)@.len() as int)) == x,
{
    let b7: u8 = (x % 256) as u8;
    let y6: u64 = x / 256;
    let b6: u8 = (y6 % 256) as u8;
    let y5: u64 = y6 / 256;
    let b5: u8 = (y5 % 256) as u8;
    let y4: u64 = y5 / 256;
    let b4: u8 = (y4 % 256) as u8;
    let y3: u64 = y4 / 256;
    let b3: u8 = (y3 % 256) as u8;
    let y2: u64 = y3 / 256;
    let b2: u8 = (y2 % 256) as u8;
    let y1: u64 = y2 / 256;
    let b1: u8 = (y1 % 256) as u8;
    let y0: u64 = y1 / 256;
    let b0: u8 = y0 as u8;
    dst.push(b0);
    dst.push(b1);
    dst.push(b2);
    dst.push(b3);
    dst.push(b4);
    dst.push(b5);
    dst.push(b6);
    dst.push(b7);
    proof {
        let old_len = old(dst)@.len() as int;
        let tail = dst@.skip(old_len);
        assert(tail =~= seq![b0, b1, b2, b3, b4, b5, b6, b7]);
        assert(dst@.take(old_len) =~= old(dst)@);
        lemma_be_val_8(tail);
    }
}

/// Unfolds `be_val` over an 8-byte string.
proof fn lemma_be_val_8(s: Seq<u8>)
    requires
        s.len() == 8,
    ensures
        be_val(s) == ((((((s[0] * 256 + s[1]) * 256 + s[2]) * 256 + s[3]) * 256 + s[4]) * 256
            + s[5]) * 256 + s[6]) * 256 + s[7],
{
    reveal_with_fuel(be_val, 9);
    assert(s.drop_last() =~= s.take(7));
    assert(s.take(7).drop_last() =~= s.take(6));
    assert(s.take(6).drop_last() =~= s.take(5));
    assert(s.take(5).drop_last() =~= s.take(4));
    assert(s.take(4).drop_last() =~= s.take(3));
    assert(s.take(3).drop_last() =~= s.take(2));
    assert(s.take(2).drop_last() =~= s.take(1));
    assert(s.take(1).drop_last() =~= s.take(0));
}

impl U256 {
    /// The 32-byte big-endian form of the word.
    pub fn to_be_bytes(&self) -> (r: Vec<u8>)
        ensures
            r@.len() == 32,
            be_val(r@) == self.as_nat(),
    {
        let mut out: Vec<u8> = Vec::new();
        push_u64_be(&mut out, self.l3);
        let g1: Ghost<Seq<u8>> = Ghost(out@);
        push_u64_be(&mut out, self.l2);
        let g2: Ghost<Seq<u8>> = Ghost(out@);
        push_u64_be(&mut out, self.l1);
        let g3: Ghost<Seq<u8>> = Ghost(out@);
        push_u64_be(&mut out, self.l0);
        proof {
            lemma_pow_256_8();
            assert(g1@.skip(0) =~= g1@);
            assert(be_val(g1@) == self.l3);
            assert(g2@ =~= g1@ + g2@.skip(8));
            lemma_be_val_append(g1@, g2@.skip(8));
            assert(g3@ =~= g2@ + g3@.skip(16));
            lemma_be_val_append(g2@, g3@.skip(16));
            assert(out@ =~= g3@ + out@.skip(24));
            lemma_be_val_append(g3@, out@.skip(24));
        }
        out
    }

    /// The word encoded by a 32-byte big-endian string.
    pub fn from_be_bytes32(s: &[u8]) -> (r: U256)
        requires
            s@.len() == 32,
        ensures
            r.as_nat() == be_val(s@),
    {
        let c3 = vstd::slice::slice_subrange(s, 0, 8);
        let c2 = vstd::slice::slice_subrange(s, 8, 16);
        let c1 = vstd::slice::slice_subrange(s, 16, 24);
        let c0 = vstd::slice::slice_subrange(s, 24, 32);
        let l3 = be_u64(c3);
        let l2 = be_u64(c2);
        let l1 = be_u64(c1);
        let l0 = be_u64(c0);
        proof {
            lemma_pow_256_8();
            assert(s@.take(16) =~= s@.take(8) + s@.subrange(8, 16));
            lemma_be_val_append(s@.take(8), s@.subrange(8, 16));
            assert(s@.take(24) =~= s@.take(16) + s@.subrange(16, 24));
            lemma_be_val_append(s@.take(16), s@.subrange(16, 24));
            assert(s@ =~= s@.take(24) + s@.subrange(24, 32));
            lemma_be_val_append(s@.take(24), s@.subrange(24, 32));
            assert(s@.take(8) =~= s@.subrange(0, 8));
        }
        U256 { l0, l1, l2, l3 }
    }
}

/// `256^8` equals `2^64`.
proof fn lemma_pow_256_8()
    ensures
        pow(256, 8) == pow2_64(),
{
    reveal_with_fuel(pow, 9);
}

} // verus!
