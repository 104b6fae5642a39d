//! Keystore encryption: derive two 16-byte sub-keys from the password with
//! scrypt, encrypt the 32-byte secret key with AES-128 in counter mode, and
//! tag the ciphertext with a Keccak-256 integrity code. Decryption reverses
//! the cipher after checking the tag.

use vstd::arithmetic::power2::{lemma2_to64, pow2};
use vstd::prelude::*;
use ctr::cipher::{KeyIvInit, StreamCipher};
use rand::Rng;
use crate::byteops::{append_bytes, bytes_eq, lemma_xor_bytes_involutive, sub_bytes, xor_bytes};
use crate::error::KsgenError;
use crate::hashes::{keccak256, keccak256_of};
use crate::hexcode::{hex_encode, hex_seq};

verus! {

pub const SCRYPT_DK_LEN: usize = 32;

pub const SCRYPT_N: u8 = 13;

pub const SCRYPT_R: u32 = 8;

pub const SCRYPT_P: u32 = 8;

/// The 32-byte key that scrypt derives from a password and salt under cost
/// exponent `log_n`, block size `r`, parallelism `p` and output length
/// `dklen`: a pure function of those arguments.
pub uninterp spec fn scrypt_of(
    password: Seq<u8>,
    salt: Seq<u8>,
    log_n: int,
    r: int,
    p: int,
    dklen: int,
) -> Seq<u8>;

/// The keystream AES-128 in counter mode produces for a key and
/// initialization vector, truncated to `len` bytes: a pure function of
/// those arguments, XORed with the plaintext by the cipher.
pub uninterp spec fn aes128_ctr_keystream(key: Seq<u8>, iv: Seq<u8>, len: int) -> Seq<u8>;

/// The parameter combinations scrypt accepts, as its own checks state them.
pub open spec fn scrypt_params_ok(log_n: int, r: int, p: int, dklen: int) -> bool {
    &&& 0 <= log_n < 64
    &&& 0 < r
    &&& 0 < p
    &&& 10 <= dklen <= 64
    &&& r * 128 <= usize::MAX
    &&& r * 128 * pow2(log_n as nat) <= usize::MAX
    &&& r * 128 * p <= usize::MAX
    &&& log_n < r * 16
    &&& r * p < 0x40000000
}

/// The fixed parameters of this library pass scrypt's checks.
pub proof fn lemma_standard_params_ok()
    ensures
        scrypt_params_ok(13, 8, 8, 32),
{
    lemma2_to64();
}

/// Relies on scrypt's `Params::new` and `scrypt`: the derived key fills
/// `dklen` bytes and depends only on the password, the salt and the
/// parameters; the parameters are rejected exactly when they fail the
/// library's documented checks.
#[verifier::external_body]
fn scrypt_derive(
    password: &[u8],
    salt: &[u8],
    log_n: u8,
    r: u32,
    p: u32,
    dklen: usize,
) -> (res: Result<Vec<u8>, KsgenError>)
    ensures
        res.is_ok() <==> scrypt_params_ok(log_n as int, r as int, p as int, dklen as int),
        res matches Ok(v) ==> {
            &&& v@.len() == dklen
            &&& v@ == scrypt_of(password@, salt@, log_n as int, r as int, p as int, dklen as int)
        },
        res matches Err(e) ==> (e == KsgenError::KdfConfigurationError || e
            == KsgenError::KdfExecutionError),
{
    let params = match scrypt::Params::new(log_n, r, p, dklen) {
        Ok(params) => params,
        Err(_) => {
            return Err(KsgenError::KdfConfigurationError);
        },
    };
    let mut out = vec![0u8; dklen];
    match scrypt::scrypt(password, salt, &params, &mut out) {
        Ok(()) => Ok(out),
        Err(_) => Err(KsgenError::KdfExecutionError),
    }
}

/// Relies on aes and ctr: AES-128 in counter mode with a 128-bit big-endian
/// counter XORs the data in place with a keystream that depends only on the
/// key and the initialization vector.
#[verifier::external_body]
fn aes128_ctr_apply(key: &[u8], iv: &[u8], data: &mut Vec<u8>)
    requires
        key@.len() == 16,
        iv@.len() == 16,
    ensures
        final(data)@ == xor_bytes(old(data)@, aes128_ctr_keystream(key@, iv@, old(data)@.len() as int)),
{
    let mut cipher = ctr::Ctr128BE::<aes::Aes128>::new(key.into(), iv.into());
    cipher.apply_keystream(data.as_mut_slice());
}

/// Relies on rand's `thread_rng`: 16 fresh random bytes; nothing can be
/// promised of their values.
#[verifier::external_body]
fn random_bytes16() -> (r: Vec<u8>)
    ensures
        r@.len() == 16,
{
    let bytes: [u8; 16] = rand::thread_rng().gen();
    bytes.to_vec()
}

/// The 32-byte key derived from a password and salt under this library's
/// fixed scrypt parameters.
pub open spec fn derived_key_of(password: Seq<u8>, salt: Seq<u8>) -> Seq<u8> {
    scrypt_of(password, salt, 13, 8, 8, 32)
}

/// The encryption sub-key: the first half of the derived key.
pub open spec fn enc_key_of(password: Seq<u8>, salt: Seq<u8>) -> Seq<u8> {
    derived_key_of(password, salt).subrange(0, 16)
}

/// The MAC sub-key: the second half of the derived key.
pub open spec fn mac_key_of(password: Seq<u8>, salt: Seq<u8>) -> Seq<u8> {
    derived_key_of(password, salt).subrange(16, 32)
}

/// The integrity tag of a ciphertext under a password and salt: Keccak-256
/// of the MAC sub-key followed by the ciphertext.
pub open spec fn mac_of(password: Seq<u8>, salt: Seq<u8>, ciphertext: Seq<u8>) -> Seq<u8> {
    keccak256_of(mac_key_of(password, salt) + ciphertext)
}

/// What the counter-mode cipher makes of `plain` under the sub-key for
/// `password` and `salt` and the vector `iv`.
pub open spec fn ciphertext_of(
    plain: Seq<u8>,
    password: Seq<u8>,
    salt: Seq<u8>,
    iv: Seq<u8>,
) -> Seq<u8> {
    xor_bytes(plain, aes128_ctr_keystream(enc_key_of(password, salt), iv, plain.len() as int))
}

pub struct CipherParams {
    pub iv: Vec<u8>,
}

impl CipherParams {
    /// A fresh 16-byte initialization vector.
    pub fn new() -> (r: Self)
        ensures
            r.iv@.len() == 16,
    {
        CipherParams { iv: random_bytes16() }
    }

    pub fn iv_hex_encoded(&self) -> (r: Result<Vec<u8>, KsgenError>)
        ensures
            r matches Ok(h) ==> h@ == hex_seq(self.iv@),
            r.is_ok(),
    {
        Ok(hex_encode(self.iv.as_slice()))
    }
}

pub struct KdfParamsInternal {
    pub dklen: usize,
    pub n: u8,
    pub r: u32,
    pub p: u32,
    pub salt: Vec<u8>,
}

/// The KDF parameters every record of this library carries: derived-key
/// length 32, cost exponent 13, block size 8, parallelism 8, a 16-byte
/// salt.
pub open spec fn kdf_params_standard(kp: KdfParamsInternal) -> bool {
    &&& kp.dklen == 32
    &&& kp.n == 13
    &&& kp.r == 8
    &&& kp.p == 8
    &&& kp.salt@.len() == 16
}

impl KdfParamsInternal {
    /// The fixed parameters with a fresh random salt.
    pub fn new() -> (r: Result<Self, KsgenError>)
        ensures
            r matches Ok(kp) ==> kdf_params_standard(kp),
            r.is_ok(),
    {
        let salt = random_bytes16();
        Ok(
            KdfParamsInternal {
                dklen: SCRYPT_DK_LEN,
                n: SCRYPT_N,
                r: SCRYPT_R,
                p: SCRYPT_P,
                salt,
            },
        )
    }

    /// The externally reported cost factor: two raised to the stored
    /// exponent; 8192 for the standard exponent 13.
    pub fn cost_factor(&self) -> (r: u32)
        requires
            self.n < 32,
        ensures
            r == 1u32 << self.n,
            self.n == 13 ==> r == 8192,
    {
        let f = 1u32 << self.n;
        proof {
            let n = self.n;
            assert(n == 13 ==> (1u32 << n) == 8192) by (bit_vector);
        }
        f
    }

    pub fn salt_hex_encoded(&self) -> (r: Result<Vec<u8>, KsgenError>)
        ensures
            r matches Ok(h) ==> h@ == hex_seq(self.salt@),
            r.is_ok(),
    {
        Ok(hex_encode(self.salt.as_slice()))
    }
}

pub struct KeystoreInternal<'a> {
    pub cipher: &'a str,
    pub cipherparams: CipherParams,
    pub ciphertext: Vec<u8>,
    pub kdf: &'a str,
    pub kdfparams: KdfParamsInternal,
    pub mac: Vec<u8>,
}

/// A password opens a record exactly when the tag recomputed from that
/// password and the stored salt and ciphertext equals the stored tag (and
/// the stored parameters are the standard ones).
pub open spec fn record_accepts(k: KeystoreInternal, password: Seq<u8>) -> bool {
    &&& kdf_params_standard(k.kdfparams)
    &&& mac_of(password, k.kdfparams.salt@, k.ciphertext@) == k.mac@
}

/// The bytes running the cipher again under a password recovers from a
/// record.
pub open spec fn record_plaintext(k: KeystoreInternal, password: Seq<u8>) -> Seq<u8> {
    xor_bytes(
        k.ciphertext@,
        aes128_ctr_keystream(
            enc_key_of(password, k.kdfparams.salt@),
            k.cipherparams.iv@,
            k.ciphertext@.len() as int,
        ),
    )
}

impl<'a> KeystoreInternal<'a> {
    /// The record's structural invariant: fixed field lengths and the
    /// standard KDF parameters.
    pub open spec fn wf(&self) -> bool {
        &&& self.ciphertext@.len() == 32
        &&& self.mac@.len() == 32
        &&& self.cipherparams.iv@.len() == 16
        &&& kdf_params_standard(self.kdfparams)
    }

    /// Encrypt a 32-byte secret key under a password: a fresh salt and
    /// initialization vector, the standard KDF parameters, the counter-mode
    /// ciphertext of the secret, and its integrity tag. The same password
    /// always opens the record and recovers the secret.
    pub fn from_secret_key(secret_key: Vec<u8>, password: &[u8]) -> (res: Result<Self, KsgenError>)
        requires
            secret_key@.len() == 32,
        ensures
            res matches Ok(k) ==> {
                &&& k.wf()
                &&& k.cipher@ == "aes-128-ctr"@
                &&& k.kdf@ == "scrypt"@
                &&& k.ciphertext@ == ciphertext_of(
                    secret_key@,
                    password@,
                    k.kdfparams.salt@,
                    k.cipherparams.iv@,
                )
                &&& k.mac@ == mac_of(password@, k.kdfparams.salt@, k.ciphertext@)
                &&& record_accepts(k, password@)
                &&& record_plaintext(k, password@) == secret_key@
            },
            res.is_ok(),
    {
        let kdfparams = match KdfParamsInternal::new() {
            Ok(kp) => kp,
            Err(e) => {
                return Err(e);
            },
        };
        let password_hash = match scrypt_derive(
            password,
            kdfparams.salt.as_slice(),
            SCRYPT_N,
            SCRYPT_R,
            SCRYPT_P,
            SCRYPT_DK_LEN,
        ) {
            Ok(v) => v,
            Err(e) => {
                proof {
                    lemma_standard_params_ok();
                }
                return Err(e);
            },
        };
        let encryption_key = sub_bytes(password_hash.as_slice(), 0, 16);
        let mac_key = sub_bytes(password_hash.as_slice(), 16, 32);

        let cipherparams = CipherParams::new();
        let mut ciphertext = secret_key;
        aes128_ctr_apply(encryption_key.as_slice(), cipherparams.iv.as_slice(), &mut ciphertext);

        let mut mac_base = mac_key;
        append_bytes(&mut mac_base, ciphertext.as_slice());
        let mac = keccak256(mac_base.as_slice());

        let k = KeystoreInternal {
            cipher: "aes-128-ctr",
            cipherparams,
            ciphertext,
            kdf: "scrypt",
            kdfparams,
            mac,
        };
        proof {
            lemma_xor_bytes_involutive(
                secret_key@,
                aes128_ctr_keystream(
                    enc_key_of(password@, k.kdfparams.salt@),
                    k.cipherparams.iv@,
                    32,
                ),
            );
        }
        Ok(k)
    }

    /// Decrypt the record with a password: re-derive the sub-keys from the
    /// stored salt, recompute the tag over the stored ciphertext, reject
    /// non-standard parameters or a differing tag, and otherwise run the
    /// cipher again to recover the plaintext.
    pub fn decrypt(&self, password: &[u8]) -> (res: Result<Vec<u8>, KsgenError>)
        requires
            self.cipherparams.iv@.len() == 16,
        ensures
            res.is_ok() <==> record_accepts(*self, password@),
            res matches Ok(v) ==> {
                &&& v@ == record_plaintext(*self, password@)
                &&& v@.len() == self.ciphertext@.len()
            },
            !kdf_params_standard(self.kdfparams) ==> res == Err::<Vec<u8>, KsgenError>(
                KsgenError::KdfConfigurationError,
            ),
            kdf_params_standard(self.kdfparams) && !record_accepts(*self, password@) ==> res
                == Err::<Vec<u8>, KsgenError>(KsgenError::MacMismatchError),
    {
        if !(self.kdfparams.dklen == SCRYPT_DK_LEN && self.kdfparams.n == SCRYPT_N
            && self.kdfparams.r == SCRYPT_R && self.kdfparams.p == SCRYPT_P
            && self.kdfparams.salt.len() == 16) {
            return Err(KsgenError::KdfConfigurationError);
        }
        let password_hash = match scrypt_derive(
            password,
            self.kdfparams.salt.as_slice(),
            SCRYPT_N,
            SCRYPT_R,
            SCRYPT_P,
            SCRYPT_DK_LEN,
        ) {
            Ok(v) => v,
            Err(e) => {
                proof {
                    lemma_standard_params_ok();
                }
                return Err(e);
            },
        };
        let encryption_key = sub_bytes(password_hash.as_slice(), 0, 16);
        let mac_key = sub_bytes(password_hash.as_slice(), 16, 32);

        let mut mac_base = mac_key;
        append_bytes(&mut mac_base, self.ciphertext.as_slice());
        let expected_mac = keccak256(mac_base.as_slice());
        if !bytes_eq(expected_mac.as_slice(), self.mac.as_slice()) {
            return Err(KsgenError::MacMismatchError);
        }

        let mut plain = sub_bytes(self.ciphertext.as_slice(), 0, self.ciphertext.len());
        proof {
            assert(plain@ =~= self.ciphertext@);
        }
        aes128_ctr_apply(encryption_key.as_slice(), self.cipherparams.iv.as_slice(), &mut plain);
        Ok(plain)
    }

    pub fn ciphertext_hex_encoded(&self) -> (r: Result<Vec<u8>, KsgenError>)
        ensures
            r matches Ok(h) ==> h@ == hex_seq(self.ciphertext@),
            r.is_ok(),
    {
        Ok(hex_encode(self.ciphertext.as_slice()))
    }

    pub fn mac_hex_encoded(&self) -> (r: Result<Vec<u8>, KsgenError>)
        ensures
            r matches Ok(h) ==> h@ == hex_seq(self.mac@),
            r.is_ok(),
    {
        Ok(hex_encode(self.mac.as_slice()))
    }
}

/// Round trip: a record whose ciphertext and tag were computed from a
/// 32-byte secret under a password — as `from_secret_key` computes them —
/// is accepted by that password, and decrypting it recovers exactly the
/// secret.
pub proof fn lemma_keystore_round_trip<'a>(
    k: KeystoreInternal<'a>,
    secret: Seq<u8>,
    password: Seq<u8>,
)
    requires
        secret.len() == 32,
        kdf_params_standard(k.kdfparams),
        k.ciphertext@ == ciphertext_of(secret, password, k.kdfparams.salt@, k.cipherparams.iv@),
        k.mac@ == mac_of(password, k.kdfparams.salt@, k.ciphertext@),
    ensures
        record_accepts(k, password),
        record_plaintext(k, password) == secret,
{
    lemma_xor_bytes_involutive(
        secret,
        aes128_ctr_keystream(enc_key_of(password, k.kdfparams.salt@), k.cipherparams.iv@, 32),
    );
}

/// Tamper detection: a password under which the recomputed tag differs from
/// the stored one never opens the record — decryption rejects it instead of
/// returning wrong plaintext.
pub proof fn lemma_tamper_rejected<'a>(k: KeystoreInternal<'a>, password: Seq<u8>)
    requires
        mac_of(password, k.kdfparams.salt@, k.ciphertext@) != k.mac@,
    ensures
        !record_accepts(k, password),
{
}

} // verus!
