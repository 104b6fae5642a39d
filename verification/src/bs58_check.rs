//! Base58Check: overwrite the 4 trailing placeholder bytes of a payload with
//! a double-SHA-256 checksum of the rest, then base58-encode the whole
//! buffer into a fixed destination.

use vstd::prelude::*;
use crate::error::KsgenError;
use crate::hashes::{sha256, sha256_of};

verus! {

/// The base58 encoding (Bitcoin alphabet) of a byte string.
pub uninterp spec fn base58_of(data: Seq<u8>) -> Seq<u8>;

/// The 4-byte checksum Base58Check appends: the first 4 bytes of the double
/// SHA-256 digest of the payload.
pub open spec fn checksum4(payload: Seq<u8>) -> Seq<u8> {
    sha256_of(sha256_of(payload)).subrange(0, 4)
}

/// Relies on bs58's `encode(..).onto(..)` with the Bitcoin alphabet: it
/// writes the base58 digits of `input` into the front of `output` and
/// returns their count, leaves the rest of `output` untouched, and fails
/// exactly when `output` cannot hold every digit. The digits are printable
/// ASCII from the 58-character alphabet, never the zero byte.
#[verifier::external_body]
pub(crate) fn base58_encode_onto(input: &[u8], output: &mut Vec<u8>) -> (r: Result<usize, KsgenError>)
    ensures
        final(output)@.len() == old(output)@.len(),
        r.is_ok() <==> base58_of(input@).len() <= old(output)@.len(),
        r matches Ok(n) ==> {
            &&& n == base58_of(input@).len()
            &&& final(output)@.subrange(0, n as int) == base58_of(input@)
            &&& final(output)@.subrange(n as int, final(output)@.len() as int) == old(
                output,
            )@.subrange(n as int, old(output)@.len() as int)
            &&& forall|i: int| 0 <= i < n ==> 0x31 <= #[trigger] final(output)@[i] <= 0x7a
        },
        r matches Err(e) ==> e == KsgenError::EncodingError,
{
    match bs58::encode(input).onto(output.as_mut_slice()) {
        Ok(n) => Ok(n),
        Err(_) => Err(KsgenError::EncodingError),
    }
}

/// Replace the last 4 bytes of `input` with the checksum of the bytes before
/// them, and base58-encode the result into the front of `output`; `output`'s
/// remaining bytes keep their old values. Fails with `EncodingError` exactly
/// when `output` is too small for every base58 digit.
pub fn bs58_check(input: &mut Vec<u8>, output: &mut Vec<u8>) -> (r: Result<(), KsgenError>)
    requires
        old(input)@.len() >= 4,
    ensures
        final(input)@ == old(input)@.subrange(0, old(input)@.len() - 4) + checksum4(
            old(input)@.subrange(0, old(input)@.len() - 4),
        ),
        final(input)@.len() == old(input)@.len(),
        final(output)@.len() == old(output)@.len(),
        r.is_ok() <==> base58_of(final(input)@).len() <= old(output)@.len(),
        r matches Ok(_) ==> {
            let enc = base58_of(final(input)@);
            &&& final(output)@.subrange(0, enc.len() as int) == enc
            &&& final(output)@.subrange(enc.len() as int, final(output)@.len() as int) == old(
                output,
            )@.subrange(enc.len() as int, old(output)@.len() as int)
            &&& forall|i: int| 0 <= i < enc.len() ==> #[trigger] final(output)@[i] != 0
        },
        r matches Err(e) ==> e == KsgenError::EncodingError,
{
    let end = input.len() - 4;
    let prefix_digest = sha256(vstd::slice::slice_subrange(input.as_slice(), 0, end));
    let chk = sha256(prefix_digest.as_slice());
    input.truncate(end);
    input.push(chk[0]);
    input.push(chk[1]);
    input.push(chk[2]);
    input.push(chk[3]);
    proof {
        assert(chk@.subrange(0, 4) =~= seq![chk@[0], chk@[1], chk@[2], chk@[3]]);
        assert(input@ =~= old(input)@.subrange(0, old(input)@.len() - 4) + chk@.subrange(0, 4));
    }
    match base58_encode_onto(input.as_slice(), output) {
        Ok(_) => Ok(()),
        Err(e) => Err(e),
    }
}

} // verus!
