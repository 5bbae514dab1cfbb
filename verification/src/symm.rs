//! Symmetric encryption: AES-256-GCM and AES-256-CTR.
//!
//! The two ciphers stand behind trusted wrappers over the `aes-gcm`, `aes`
//! and `ctr` crates; their outputs are named by uninterpreted functions, and
//! the wrappers state the inverse relations that the crates document.  The
//! dispatching [`encrypt`] and [`decrypt`] functions and the length checks
//! are verified.

use vstd::prelude::*;
use vstd::pervasive::VecAdditionalExecFns;
use aes_gcm::KeyInit;
use aes_gcm::aead::Aead;
use ctr::cipher::{KeyIvInit, StreamCipher};
use crate::error::Error;
use crate::strutil::str_eq;

verus! {

/// Ciphers accepted for wrapped data.  The JWE label of each variant is
/// `A256GCM` / `A256CTR`; the schema name is `Aes256Gcm` / `Aes256Ctr`.
#[derive(Debug, Clone, Copy, PartialEq, Eq, Structural)]
pub enum WrapType {
    Aes256Gcm,
    Aes256Ctr,
}

/// Plaintexts above this length are refused by the AES-GCM implementation.
pub const GCM_P_MAX: u64 = 0x10_0000_0000;

/// AES-256-GCM with a 12-byte nonce: `plaintext` encrypted under `key`, with
/// the 16-byte authentication tag appended.
pub uninterp spec fn aes_gcm_seal_of(key: Seq<u8>, iv: Seq<u8>, plaintext: Seq<u8>) -> Seq<u8>;

/// AES-256-CTR keystream application (encryption and decryption alike).
pub uninterp spec fn aes_ctr_of(key: Seq<u8>, iv: Seq<u8>, data: Seq<u8>) -> Seq<u8>;

/// Relies on `aes_gcm::Aes256Gcm` (`Aead::encrypt`): a pure function of key,
/// nonce and plaintext; appends the 16-byte tag; succeeds for any plaintext
/// the implementation accepts (up to 2^36 bytes).
#[verifier::external_body]
fn aes256_gcm_encrypt(key: &[u8], iv: &[u8], plaintext: &[u8]) -> (r: Result<Vec<u8>, Error>)
    requires
        key@.len() == 32,
        iv@.len() == 12,
    ensures
        plaintext@.len() <= GCM_P_MAX ==> r is Ok,
        r matches Ok(c) ==> c@ == aes_gcm_seal_of(key@, iv@, plaintext@),
        r matches Ok(c) ==> c@.len() == plaintext@.len() + 16,
        r matches Err(e) ==> e is DecryptionFailed,
{
    let cipher = match aes_gcm::Aes256Gcm::new_from_slice(key) {
        Ok(c) => c,
        Err(_) => return Err(Error::DecryptionFailed),
    };
    cipher
        .encrypt(aes_gcm::Nonce::from_slice(iv), plaintext)
        .map_err(|_| Error::DecryptionFailed)
}

/// Relies on `aes_gcm::Aes256Gcm` (`Aead::decrypt`): checks the trailing
/// 16-byte tag and, exactly on ciphertexts produced by the encryption with
/// the same key and nonce, returns the one plaintext that produced them.
#[verifier::external_body]
fn aes256_gcm_decrypt(key: &[u8], iv: &[u8], ciphertext: &[u8]) -> (r: Result<Vec<u8>, Error>)
    requires
        key@.len() == 32,
        iv@.len() == 12,
    ensures
        r matches Ok(p) ==> ciphertext@ == aes_gcm_seal_of(key@, iv@, p@),
        forall|p: Seq<u8>|
            p.len() <= GCM_P_MAX && ciphertext@ == #[trigger] aes_gcm_seal_of(key@, iv@, p)
                ==> r is Ok,
        r matches Ok(v) ==> forall|p: Seq<u8>|
            p.len() <= GCM_P_MAX && ciphertext@ == #[trigger] aes_gcm_seal_of(key@, iv@, p)
                ==> v@ == p,
        r matches Err(e) ==> e is DecryptionFailed,
{
    let cipher = match aes_gcm::Aes256Gcm::new_from_slice(key) {
        Ok(c) => c,
        Err(_) => return Err(Error::DecryptionFailed),
    };
    cipher
        .decrypt(aes_gcm::Nonce::from_slice(iv), ciphertext)
        .map_err(|_| Error::DecryptionFailed)
}

/// Relies on `ctr::Ctr128BE<aes::Aes256>` (`apply_keystream`): XORs the
/// keystream of `key`/`iv` onto the data, so applying it twice restores the
/// input; the length never changes.
#[verifier::external_body]
fn aes256_ctr_apply(key: &[u8], iv: &[u8], data: &[u8]) -> (r: Vec<u8>)
    requires
        key@.len() == 32,
        iv@.len() == 16,
    ensures
        r@ == aes_ctr_of(key@, iv@, data@),
        aes_ctr_of(key@, iv@, r@) == data@,
        r@.len() == data@.len(),
        forall|p: Seq<u8>| data@ == #[trigger] aes_ctr_of(key@, iv@, p) ==> r@ == p,
{
    let mut buf = data.to_vec();
    let mut cipher = ctr::Ctr128BE::<aes::Aes256>::new_from_slices(key, iv)
        .expect("key and iv lengths were checked");
    cipher.apply_keystream(&mut buf);
    buf
}

/// The IV length each cipher takes.
pub open spec fn iv_len_spec(wt: WrapType) -> int {
    match wt {
        WrapType::Aes256Gcm => 12,
        WrapType::Aes256Ctr => 16,
    }
}

/// Do key and IV have the lengths `wt` requires?
pub open spec fn valid_key_iv(wt: WrapType, key: Seq<u8>, iv: Seq<u8>) -> bool {
    key.len() == 32 && iv.len() == iv_len_spec(wt)
}

/// What sealing `data` under `wt` produces.
pub open spec fn seal_of(wt: WrapType, key: Seq<u8>, iv: Seq<u8>, data: Seq<u8>) -> Seq<u8> {
    match wt {
        WrapType::Aes256Gcm => aes_gcm_seal_of(key, iv, data),
        WrapType::Aes256Ctr => aes_ctr_of(key, iv, data),
    }
}

/// Symmetric encryption of `data` with `key` and `iv` under the cipher `wt`.
pub fn encrypt(key: &[u8], data: &[u8], iv: &[u8], wt: WrapType) -> (r: Result<Vec<u8>, Error>)
    requires
        valid_key_iv(wt, key@, iv@),
        data@.len() <= GCM_P_MAX,
    ensures
        r matches Ok(c) && c@ == seal_of(wt, key@, iv@, data@),
{
    match wt {
        WrapType::Aes256Gcm => aes256_gcm_encrypt(key, iv, data),
        WrapType::Aes256Ctr => Ok(aes256_ctr_apply(key, iv, data)),
    }
}

/// Symmetric decryption, the inverse of [`encrypt`].
///
/// Wrong key or IV lengths, and AES-GCM inputs whose authentication tag does
/// not check out, give `DecryptionFailed`.  On every ciphertext that
/// [`encrypt`] can produce, the original plaintext comes back.
pub fn decrypt(key: &[u8], ciphertext: &[u8], iv: &[u8], wt: WrapType) -> (r: Result<
    Vec<u8>,
    Error,
>)
    ensures
        !valid_key_iv(wt, key@, iv@) ==> (r matches Err(e) && e is DecryptionFailed),
        r matches Ok(p) ==> valid_key_iv(wt, key@, iv@) && ciphertext@ == seal_of(
            wt,
            key@,
            iv@,
            p@,
        ),
        forall|p: Seq<u8>|
            valid_key_iv(wt, key@, iv@) && p.len() <= GCM_P_MAX && ciphertext@ == #[trigger] seal_of(
                wt,
                key@,
                iv@,
                p,
            ) ==> (r matches Ok(v) && v@ == p),
        r matches Err(e) ==> e is DecryptionFailed,
{
    if key.len() != 32 {
        return Err(Error::DecryptionFailed);
    }
    match wt {
        WrapType::Aes256Gcm => {
            if iv.len() != 12 {
                return Err(Error::DecryptionFailed);
            }
            aes256_gcm_decrypt(key, iv, ciphertext)
        },
        WrapType::Aes256Ctr => {
            if iv.len() != 16 {
                return Err(Error::DecryptionFailed);
            }
            Ok(aes256_ctr_apply(key, iv, ciphertext))
        },
    }
}

/// Overwrite every byte of a sensitive buffer with zero, in place.
pub fn wipe(buf: &mut Vec<u8>)
    ensures
        final(buf)@.len() == old(buf)@.len(),
        forall|i: int| 0 <= i < final(buf)@.len() ==> final(buf)@[i] == 0u8,
{
    let n = buf.len();
    let mut i: usize = 0;
    while i < n
        invariant
            n == buf@.len(),
            0 <= i <= n,
            forall|j: int| 0 <= j < i ==> buf@[j] == 0u8,
        decreases n - i,
    {
        buf.set(i, 0u8);
        i += 1;
    }
}

impl WrapType {
    /// The JWE label of the cipher (`enc` field of a protected header).
    pub open spec fn alg_spec(self) -> Seq<char> {
        match self {
            WrapType::Aes256Gcm => "A256GCM"@,
            WrapType::Aes256Ctr => "A256CTR"@,
        }
    }

    /// The schema name of the cipher (`wrap_type` field of a sealed secret).
    pub open spec fn name_spec(self) -> Seq<char> {
        match self {
            WrapType::Aes256Gcm => "Aes256Gcm"@,
            WrapType::Aes256Ctr => "Aes256Ctr"@,
        }
    }

    /// The JWE label as a string.
    pub fn alg(&self) -> (r: &'static str)
        ensures
            r@ == self.alg_spec(),
    {
        match self {
            WrapType::Aes256Gcm => "A256GCM",
            WrapType::Aes256Ctr => "A256CTR",
        }
    }

    /// The schema name as a string.
    pub fn name(&self) -> (r: &'static str)
        ensures
            r@ == self.name_spec(),
    {
        match self {
            WrapType::Aes256Gcm => "Aes256Gcm",
            WrapType::Aes256Ctr => "Aes256Ctr",
        }
    }

    /// Parse a JWE label; accepts exactly `A256GCM` and `A256CTR`.
    pub fn from_alg(s: &str) -> (r: Option<WrapType>)
        ensures
            r matches Some(wt) ==> s@ == wt.alg_spec(),
            r is None ==> forall|wt: WrapType| s@ != #[trigger] wt.alg_spec(),
    {
        if str_eq(s, "A256GCM") {
            Some(WrapType::Aes256Gcm)
        } else if str_eq(s, "A256CTR") {
            Some(WrapType::Aes256Ctr)
        } else {
            assert(forall|wt: WrapType| s@ != #[trigger] wt.alg_spec()) by {
                assert(WrapType::Aes256Gcm.alg_spec() == "A256GCM"@);
                assert(WrapType::Aes256Ctr.alg_spec() == "A256CTR"@);
            }
            None
        }
    }

    /// Parse a schema name; accepts exactly `Aes256Gcm` and `Aes256Ctr`.
    pub fn from_name(s: &str) -> (r: Option<WrapType>)
        ensures
            r matches Some(wt) ==> s@ == wt.name_spec(),
            r is None ==> forall|wt: WrapType| s@ != #[trigger] wt.name_spec(),
    {
        if str_eq(s, "Aes256Gcm") {
            Some(WrapType::Aes256Gcm)
        } else if str_eq(s, "Aes256Ctr") {
            Some(WrapType::Aes256Ctr)
        } else {
            None
        }
    }
}

} // verus!
