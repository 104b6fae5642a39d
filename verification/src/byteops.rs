//! Small verified helpers on byte vectors, and the spec-level byte
//! transformations the contracts are written over.

use vstd::prelude::*;

verus! {

/// Byte-wise exclusive or of `a` with `b`; the result has `a`'s length.
pub open spec fn xor_bytes(a: Seq<u8>, b: Seq<u8>) -> Seq<u8> {
    Seq::new(a.len(), |i: int| a[i] ^ b[i])
}

/// Applying the same mask twice gives the original bytes back; this is what
/// makes a counter-mode cipher its own inverse.
pub proof fn lemma_xor_bytes_involutive(a: Seq<u8>, b: Seq<u8>)
    ensures
        xor_bytes(xor_bytes(a, b), b) == a,
{
    assert forall|i: int| 0 <= i < a.len() implies xor_bytes(xor_bytes(a, b), b)[i] == a[i] by {
        let x = a[i];
        let y = b[i];
        assert((x ^ y) ^ y == x) by (bit_vector);
    }
    assert(xor_bytes(xor_bytes(a, b), b) =~= a);
}

/// `s` extended with zero bytes up to length `n`.
pub open spec fn zero_padded(s: Seq<u8>, n: int) -> Seq<u8> {
    s + Seq::new((n - s.len()) as nat, |i: int| 0u8)
}

/// The number of bytes before the first zero byte of `s` (or all of `s`, if
/// no byte is zero): the length a length-detecting consumer of a zero-padded
/// buffer sees.
pub open spec fn unpadded_len(s: Seq<u8>) -> int
    decreases s.len(),
{
    if s.len() == 0 {
        0
    } else if s[0] == 0 {
        0
    } else {
        1 + unpadded_len(s.subrange(1, s.len() as int))
    }
}

/// The unpadded length never exceeds the buffer's length.
pub proof fn lemma_unpadded_len_le(s: Seq<u8>)
    ensures
        0 <= unpadded_len(s) <= s.len(),
    decreases s.len(),
{
    if s.len() == 0 {
    } else if s[0] == 0 {
    } else {
        lemma_unpadded_len_le(s.subrange(1, s.len() as int));
    }
}

/// `unpadded_len` is the index of the first zero byte: if everything before
/// `i` is nonzero and `i` is past the end or holds a zero, the unpadded
/// length is exactly `i`.
pub proof fn lemma_unpadded_len_at(s: Seq<u8>, i: int)
    requires
        0 <= i <= s.len(),
        forall|j: int| 0 <= j < i ==> s[j] != 0,
        i < s.len() ==> s[i] == 0,
    ensures
        unpadded_len(s) == i,
    decreases s.len(),
{
    if s.len() == 0 {
    } else if i == 0 {
    } else {
        let t = s.subrange(1, s.len() as int);
        assert forall|j: int| 0 <= j < i - 1 implies t[j] != 0 by {
            assert(t[j] == s[j + 1]);
        }
        if i - 1 < t.len() {
            assert(t[i - 1] == s[i]);
        }
        lemma_unpadded_len_at(t, i - 1);
    }
}

/// A base58 or hex address, zero-padded into its fixed buffer, reads back as
/// exactly the encoded characters: the unpadded length of the padded buffer
/// is the encoding's own length.
pub proof fn lemma_unpadded_len_of_padded(s: Seq<u8>, n: int)
    requires
        s.len() <= n,
        forall|j: int| 0 <= j < s.len() ==> s[j] != 0,
    ensures
        unpadded_len(zero_padded(s, n)) == s.len(),
        zero_padded(s, n).subrange(0, s.len() as int) == s,
{
    let p = zero_padded(s, n);
    assert forall|j: int| 0 <= j < s.len() implies p[j] != 0 by {
        assert(p[j] == s[j]);
    }
    if (s.len() as int) < n {
        assert(p[s.len() as int] == 0);
    }
    lemma_unpadded_len_at(p, s.len() as int);
    assert(p.subrange(0, s.len() as int) =~= s);
}

/// A buffer of length `n` that starts with `enc` and holds zeros after it
/// is exactly `enc` zero-padded to `n`.
pub proof fn lemma_padded_from_parts(buf: Seq<u8>, enc: Seq<u8>, n: int)
    requires
        buf.len() == n,
        enc.len() <= n,
        buf.subrange(0, enc.len() as int) == enc,
        forall|i: int| enc.len() <= i < n ==> buf[i] == 0,
    ensures
        buf == zero_padded(enc, n),
{
    assert forall|i: int| 0 <= i < n implies buf[i] == zero_padded(enc, n)[i] by {
        if i < enc.len() {
            assert(buf.subrange(0, enc.len() as int)[i] == buf[i]);
        }
    }
    assert(buf =~= zero_padded(enc, n));
}

/// Append every byte of `src` to `dst`.
pub fn append_bytes(dst: &mut Vec<u8>, src: &[u8])
    ensures
        final(dst)@ == old(dst)@ + src@,
{
    let mut i: usize = 0;
    while i < src.len()
        invariant
            i <= src@.len(),
            dst@ == old(dst)@ + src@.subrange(0, i as int),
        decreases src@.len() - i,
    {
        let b = *vstd::slice::slice_index_get(src, i);
        dst.push(b);
        assert(src@.subrange(0, i + 1) =~= src@.subrange(0, i as int).push(src@[i as int]));
        i = i + 1;
    }
    assert(src@.subrange(0, src@.len() as int) =~= src@);
}

/// A fresh vector holding `src[start..end]`.
pub fn sub_bytes(src: &[u8], start: usize, end: usize) -> (r: Vec<u8>)
    requires
        start <= end <= src@.len(),
    ensures
        r@ == src@.subrange(start as int, end as int),
{
    let mut out: Vec<u8> = Vec::new();
    let mut i: usize = start;
    while i < end
        invariant
            start <= i <= end <= src@.len(),
            out@ == src@.subrange(start as int, i as int),
        decreases end - i,
    {
        let b = *vstd::slice::slice_index_get(src, i);
        out.push(b);
        assert(src@.subrange(start as int, i + 1) =~= src@.subrange(start as int, i as int).push(
            src@[i as int],
        ));
        i = i + 1;
    }
    out
}

/// A fresh vector holding the same bytes as `src`.
pub fn copy_bytes(src: &[u8]) -> (r: Vec<u8>)
    ensures
        r@ == src@,
{
    let out = sub_bytes(src, 0, src.len());
    proof {
        assert(src@.subrange(0, src@.len() as int) =~= src@);
    }
    out
}

/// A vector of `n` zero bytes.
pub fn zero_bytes(n: usize) -> (r: Vec<u8>)
    ensures
        r@ == Seq::new(n as nat, |i: int| 0u8),
{
    let mut out: Vec<u8> = Vec::new();
    let mut i: usize = 0;
    while i < n
        invariant
            i <= n,
            out@ == Seq::new(i as nat, |j: int| 0u8),
        decreases n - i,
    {
        out.push(0u8);
        assert(out@ =~= Seq::new((i + 1) as nat, |j: int| 0u8));
        i = i + 1;
    }
    out
}

/// True exactly when the two byte slices hold the same bytes.
pub fn bytes_eq(a: &[u8], b: &[u8]) -> (r: bool)
    ensures
        r == (a@ == b@),
{
    if a.len() != b.len() {
        assert(a@ != b@);
        return false;
    }
    let n = a.len();
    let mut i: usize = 0;
    while i < n
        invariant
            i <= n,
            n == a@.len() == b@.len(),
            forall|j: int| 0 <= j < i ==> a@[j] == b@[j],
        decreases n - i,
    {
        let x = *vstd::slice::slice_index_get(a, i);
        let y = *vstd::slice::slice_index_get(b, i);
        if x != y {
            assert(a@[i as int] != b@[i as int]);
            return false;
        }
        i = i + 1;
    }
    assert(a@ =~= b@);
    true
}

} // verus!
