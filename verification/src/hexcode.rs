//! Lowercase hex encoding of byte strings, specified byte by byte and
//! implemented here: digits `0`-`9` and `a`-`f`, two characters per input
//! byte, never the zero byte.

use vstd::prelude::*;

verus! {

/// The ASCII code of the lowercase hex digit for a nibble `n < 16`.
pub open spec fn hex_digit(n: u8) -> u8 {
    if n < 10 {
        (0x30 + n) as u8
    } else {
        (0x57 + n) as u8
    }
}

/// The lowercase hex encoding of `data`: character `2*i` is the high nibble
/// of byte `i`, character `2*i + 1` its low nibble.
pub open spec fn hex_seq(data: Seq<u8>) -> Seq<u8> {
    Seq::new(
        data.len() * 2,
        |i: int|
            if i % 2 == 0 {
                hex_digit((data[i / 2] >> 4) as u8)
            } else {
                hex_digit((data[i / 2] & 0x0f) as u8)
            },
    )
}

/// Hex characters are printable ASCII and never zero, so a hex-encoded
/// address fills its fixed buffer with no padding.
pub proof fn lemma_hex_seq_ascii(data: Seq<u8>)
    ensures
        hex_seq(data).len() == data.len() * 2,
        forall|i: int| 0 <= i < hex_seq(data).len() ==> 0x30 <= #[trigger] hex_seq(data)[i] <= 0x66,
        forall|i: int| 0 <= i < hex_seq(data).len() ==> hex_seq(data)[i] != 0,
{
    assert forall|i: int| 0 <= i < hex_seq(data).len() implies 0x30 <= #[trigger] hex_seq(data)[i]
        <= 0x66 by {
        let b = data[i / 2];
        assert(b >> 4 < 16 && b & 0x0f < 16) by (bit_vector);
    }
}

/// The hex digit of a nibble, executably.
pub fn hex_digit_char(n: u8) -> (r: u8)
    requires
        n < 16,
    ensures
        r == hex_digit(n),
{
    if n < 10 {
        0x30 + n
    } else {
        0x57 + n
    }
}

/// The lowercase hex encoding of `data`, two characters per byte.
pub fn hex_encode(data: &[u8]) -> (r: Vec<u8>)
    ensures
        r@ == hex_seq(data@),
        r@.len() == data@.len() * 2,
{
    let mut out: Vec<u8> = Vec::new();
    let mut i: usize = 0;
    while i < data.len()
        invariant
            i <= data@.len(),
            out@.len() == i * 2,
            out@ == hex_seq(data@.subrange(0, i as int)),
        decreases data@.len() - i,
    {
        let b = *vstd::slice::slice_index_get(data, i);
        let hi = b >> 4;
        let lo = b & 0x0f;
        proof {
            assert(b >> 4 < 16 && b & 0x0f < 16) by (bit_vector);
        }
        out.push(hex_digit_char(hi));
        out.push(hex_digit_char(lo));
        proof {
            let pre = data@.subrange(0, i as int);
            let cur = data@.subrange(0, i + 1);
            assert forall|j: int| 0 <= j < cur.len() * 2 implies out@[j] == hex_seq(cur)[j] by {
                if j < 2 * i {
                    assert(out@[j] == hex_seq(pre)[j]);
                    assert(pre[j / 2] == cur[j / 2]);
                } else {
                    assert(j / 2 == i as int);
                    assert(cur[i as int] == data@[i as int]);
                }
            }
            assert(out@ =~= hex_seq(cur));
        }
        i = i + 1;
    }
    proof {
        assert(data@.subrange(0, data@.len() as int) =~= data@);
    }
    out
}

} // verus!
