//! A freshly derived wallet: the 32-byte secret key together with the
//! network address, held in a fixed-capacity buffer of `N` bytes that is
//! left-aligned and zero-padded when the encoding is shorter than `N`.

use vstd::prelude::*;
use crate::byteops::unpadded_len;
use crate::error::KsgenError;

verus! {

pub struct KeypairDerived<const N: usize> {
    pub secret_key: Vec<u8>,
    pub address: Vec<u8>,
}

impl<const N: usize> KeypairDerived<N> {
    /// The address buffer's bytes.
    pub open spec fn addr(&self) -> Seq<u8> {
        self.address@
    }

    /// The buffer holds exactly `N` bytes and the secret key exactly 32.
    pub open spec fn wf(&self) -> bool {
        &&& self.addr().len() == N
        &&& self.secret_key@.len() == 32
    }

    pub fn new(secret_key: Vec<u8>, address: Vec<u8>) -> (r: Self)
        requires
            address@.len() == N,
        ensures
            r.secret_key@ == secret_key@,
            r.addr() == address@,
    {
        KeypairDerived { secret_key, address }
    }

    /// The address up to its first zero byte: base58 and hex never emit the
    /// zero byte, so this is the true encoded content of the buffer.
    pub fn address_ref(&self) -> (r: Result<&[u8], KsgenError>)
        ensures
            r matches Ok(a) ==> a@ == self.addr().subrange(0, unpadded_len(self.addr())),
            r.is_ok(),
    {
        let n = self.address.len();
        let mut i: usize = 0;
        while i < n
            invariant
                i <= n,
                n == self.addr().len(),
                forall|j: int| 0 <= j < i ==> self.addr()[j] != 0,
            decreases n - i,
        {
            if self.address[i] == 0 {
                proof {
                    crate::byteops::lemma_unpadded_len_at(self.addr(), i as int);
                }
                return Ok(vstd::slice::slice_subrange(self.address.as_slice(), 0, i));
            }
            i = i + 1;
        }
        proof {
            crate::byteops::lemma_unpadded_len_at(self.addr(), n as int);
            assert(self.addr().subrange(0, n as int) =~= self.addr());
        }
        Ok(vstd::slice::slice_subrange(self.address.as_slice(), 0, n))
    }

    /// The whole fixed-length buffer, for encodings that always fill it.
    pub fn address_ref_fixed(&self) -> (r: Result<&[u8], KsgenError>)
        ensures
            r matches Ok(a) ==> a@ == self.addr(),
            r.is_ok(),
    {
        Ok(self.address.as_slice())
    }
}

} // verus!
