//! Small verified helpers on byte strings: equality, the all-zero test,
//! concatenation and exclusive-or.

use vstd::prelude::*;

verus! {

/// The all-zero byte string of length 32: the encoding of the identity group
/// element and of the zero scalar.
pub open spec fn zero32() -> Seq<u8> {
    Seq::new(32, |i: int| 0u8)
}

/// Pointwise exclusive-or of two byte strings of equal length.
pub open spec fn xor_seq(a: Seq<u8>, b: Seq<u8>) -> Seq<u8>
    recommends
        a.len() == b.len(),
{
    Seq::new(a.len(), |i: int| a[i] ^ b[i])
}

/// Byte-string equality, decided in one pass.
pub fn bytes_eq(a: &[u8], b: &[u8]) -> (r: bool)
    ensures
        r == (a@ == b@),
{
    if a.len() != b.len() {
        return false;
    }
    let n = a.len();
    let mut i: usize = 0;
    while i < n
        invariant
            n == a@.len() == b@.len(),
            i <= n,
            forall|j: int| 0 <= j < i ==> a@[j] == b@[j],
        decreases n - i,
    {
        if a[i] != b[i] {
            return false;
        }
        i += 1;
    }
    proof {
        assert(a@ =~= b@);
    }
    true
}

/// Whether a byte string is exactly 32 zero bytes.
pub fn is_zero32(a: &[u8]) -> (r: bool)
    ensures
        r == (a@ == zero32()),
{
    if a.len() != 32 {
        return false;
    }
    let mut i: usize = 0;
    while i < 32
        invariant
            a@.len() == 32,
            i <= 32,
            forall|j: int| 0 <= j < i ==> a@[j] == 0u8,
        decreases 32 - i,
    {
        if a[i] != 0 {
            assert(a@ != zero32()) by {
                assert(zero32()[i as int] == 0u8);
            }
            return false;
        }
        i += 1;
    }
    proof {
        assert(a@ =~= zero32());
    }
    true
}

/// Appends `src` to `dst`.
pub fn append_bytes(dst: &mut Vec<u8>, src: &[u8])
    ensures
        final(dst)@ == old(dst)@ + src@,
{
    let n = src.len();
    let mut i: usize = 0;
    while i < n
        invariant
            n == src@.len(),
            i <= n,
            dst@ == old(dst)@ + src@.subrange(0, i as int),
        decreases n - i,
    {
        dst.push(src[i]);
        proof {
            assert(old(dst)@ + src@.subrange(0, i as int) + seq![src@[i as int]] =~= old(
                dst,
            )@ + src@.subrange(0, i + 1));
        }
        i += 1;
    }
    proof {
        assert(src@.subrange(0, n as int) =~= src@);
    }
}

/// A fresh vector of 32 zero bytes.
pub fn zero_vec32() -> (r: Vec<u8>)
    ensures
        r@ == zero32(),
{
    let mut out: Vec<u8> = Vec::new();
    let mut i: usize = 0;
    while i < 32
        invariant
            i <= 32,
            out@.len() == i,
            forall|j: int| 0 <= j < i ==> out@[j] == 0u8,
        decreases 32 - i,
    {
        out.push(0u8);
        i += 1;
    }
    proof {
        assert(out@ =~= zero32());
    }
    out
}

/// The concatenation of two byte strings, as a fresh vector.
pub fn concat2(a: &[u8], b: &[u8]) -> (r: Vec<u8>)
    ensures
        r@ == a@ + b@,
{
    let mut out: Vec<u8> = Vec::new();
    append_bytes(&mut out, a);
    append_bytes(&mut out, b);
    proof {
        assert(Seq::<u8>::empty() + a@ + b@ =~= a@ + b@);
    }
    out
}

/// Pointwise exclusive-or of two byte strings of equal length.
pub fn xor_bytes(a: &[u8], b: &[u8]) -> (r: Vec<u8>)
    requires
        a@.len() == b@.len(),
    ensures
        r@ == xor_seq(a@, b@),
{
    let n = a.len();
    let mut out: Vec<u8> = Vec::new();
    let mut i: usize = 0;
    while i < n
        invariant
            n == a@.len() == b@.len(),
            i <= n,
            out@.len() == i,
            forall|j: int| 0 <= j < i ==> out@[j] == (a@[j] ^ b@[j]),
        decreases n - i,
    {
        out.push(a[i] ^ b[i]);
        i += 1;
    }
    proof {
        assert(out@ =~= xor_seq(a@, b@));
    }
    out
}

/// Exclusive-or is an involution: masking twice with the same pad returns the
/// original byte string.
pub proof fn lemma_xor_involution(a: Seq<u8>, pad: Seq<u8>)
    requires
        a.len() == pad.len(),
    ensures
        xor_seq(xor_seq(a, pad), pad) == a,
{
    assert forall|i: int| 0 <= i < a.len() implies xor_seq(xor_seq(a, pad), pad)[i] == a[i] by {
        let x = a[i];
        let p = pad[i];
        assert((x ^ p) ^ p == x) by (bit_vector);
    }
    assert(xor_seq(xor_seq(a, pad), pad) =~= a);
}

} // verus!
