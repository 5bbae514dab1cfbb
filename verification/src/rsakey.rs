//! RSA key pairs for the attested session, trusted at the boundary of the
//! `rsa` crate.
//!
//! A fresh 2048-bit key pair is generated for every handshake; its public
//! half travels to the KBS as base64 big-endian modulus and exponent, and
//! the private half unwraps the symmetric key of each response.  The key
//! material itself is opaque to verification; the exported component bytes
//! are held beside it so that contracts can speak of them.

use vstd::prelude::*;
use vstd::string::*;
use rsa::traits::PublicKeyParts;
use crate::b64::{b64_std_of, b64_encode};
use crate::error::Error;
use crate::strutil::str_eq;

verus! {

#[verifier::external_type_specification]
#[verifier::external_body]
pub struct ExRsaPrivateKey(rsa::RsaPrivateKey);

#[verifier::external_type_specification]
#[verifier::external_body]
pub struct ExRsaPublicKey(rsa::RsaPublicKey);

/// RSA decryption padding modes, with their JWE wire labels.
#[derive(Debug, Clone, Copy, PartialEq, Eq, Structural)]
pub enum PaddingMode {
    /// OAEP with SHA-256; wire label `RSA-OAEP`.
    OAEP,
    /// PKCS#1 v1.5; wire label `RSA1_5`.
    PKCS1v15,
}

impl PaddingMode {
    /// The JWE label of the mode.
    pub open spec fn label_spec(self) -> Seq<char> {
        match self {
            PaddingMode::OAEP => "RSA-OAEP"@,
            PaddingMode::PKCS1v15 => "RSA1_5"@,
        }
    }

    /// The JWE label as a string.
    pub fn as_label(&self) -> (r: &'static str)
        ensures
            r@ == self.label_spec(),
    {
        match self {
            PaddingMode::OAEP => "RSA-OAEP",
            PaddingMode::PKCS1v15 => "RSA1_5",
        }
    }

    /// Parse a JWE label; accepts exactly `RSA-OAEP` and `RSA1_5`.
    pub fn from_label(s: &str) -> (r: Option<PaddingMode>)
        ensures
            r matches Some(m) ==> s@ == m.label_spec(),
            r is None ==> forall|m: PaddingMode| s@ != #[trigger] m.label_spec(),
    {
        if str_eq(s, "RSA-OAEP") {
            Some(PaddingMode::OAEP)
        } else if str_eq(s, "RSA1_5") {
            Some(PaddingMode::PKCS1v15)
        } else {
            None
        }
    }
}

/// A 2048-bit RSA key pair, with the public component bytes exported.
pub struct RSAKeyPair {
    /// The private key; opaque to verification.
    pub private_key: rsa::RsaPrivateKey,
    /// The public key derived from it; opaque to verification.
    pub public_key: rsa::RsaPublicKey,
    /// Big-endian bytes of the public modulus, as exported at generation.
    pub modulus_be: Vec<u8>,
    /// Big-endian bytes of the public exponent, as exported at generation.
    pub exponent_be: Vec<u8>,
}

/// Relies on `rsa::RsaPrivateKey::new` with `rand::thread_rng`: generates a
/// fresh 2048-bit private key, derives the public key, and exports the
/// public modulus and exponent as big-endian bytes (`PublicKeyParts::n`/`e`,
/// `BigUint::to_bytes_be`).  The result is random; nothing relates the runs.
#[verifier::external_body]
fn generate_keypair() -> (r: Result<RSAKeyPair, Error>) {
    let mut rng = rand::thread_rng();
    let private_key = rsa::RsaPrivateKey::new(&mut rng, 2048)
        .map_err(|e| Error::Upstream(format!("RSA key generation failed: {e}")))?;
    let public_key = rsa::RsaPublicKey::from(&private_key);
    let modulus_be = public_key.n().to_bytes_be();
    let exponent_be = public_key.e().to_bytes_be();
    Ok(RSAKeyPair { private_key, public_key, modulus_be, exponent_be })
}

/// Relies on `rsa::RsaPrivateKey::decrypt` with `Pkcs1v15Encrypt`: unwraps a
/// ciphertext encrypted to the public key.  Fails on ciphertexts that were
/// not properly encrypted to this key; the failure is reported as the one
/// RSA unwrap error.
#[verifier::external_body]
fn rsa_decrypt_pkcs1v15(key: &rsa::RsaPrivateKey, ciphertext: &[u8]) -> (r: Result<Vec<u8>, Error>)
    ensures
        r matches Err(e) ==> e is RsaUnwrapFailed,
{
    key.decrypt(rsa::Pkcs1v15Encrypt, ciphertext)
        .map_err(|_| Error::RsaUnwrapFailed)
}

/// Relies on `rsa::RsaPrivateKey::decrypt` with `Oaep::new::<sha2::Sha256>`:
/// unwraps an OAEP-SHA256 ciphertext encrypted to the public key; a failure
/// is reported as the one RSA unwrap error.
#[verifier::external_body]
fn rsa_decrypt_oaep(key: &rsa::RsaPrivateKey, ciphertext: &[u8]) -> (r: Result<Vec<u8>, Error>)
    ensures
        r matches Err(e) ==> e is RsaUnwrapFailed,
{
    key.decrypt(rsa::Oaep::new::<sha2::Sha256>(), ciphertext)
        .map_err(|_| Error::RsaUnwrapFailed)
}

impl RSAKeyPair {
    /// Generate a fresh 2048-bit key pair from a CSPRNG.
    pub fn new() -> (r: Result<RSAKeyPair, Error>) {
        generate_keypair()
    }

    /// Unwrap `ciphertext` with the private key under the given padding mode.
    pub fn decrypt(&self, mode: PaddingMode, ciphertext: Vec<u8>) -> (r: Result<Vec<u8>, Error>)
        ensures
            r matches Err(e) ==> e is RsaUnwrapFailed,
    {
        match mode {
            PaddingMode::OAEP => rsa_decrypt_oaep(&self.private_key, ciphertext.as_slice()),
            PaddingMode::PKCS1v15 => rsa_decrypt_pkcs1v15(&self.private_key, ciphertext.as_slice()),
        }
    }
}

/// The public half of a TEE key pair, as serialised towards the KBS.
pub struct TeePubKey {
    /// Always the PKCS#1 v1.5 label, `RSA1_5`.
    pub alg: String,
    /// Base64 (standard, padded) of the big-endian modulus.
    pub k_mod: String,
    /// Base64 (standard, padded) of the big-endian exponent.
    pub k_exp: String,
}

/// The asymmetric key pair held inside the TEE for one attested session.
pub struct TeeKeyPair {
    /// The underlying RSA material.
    pub keypair: RSAKeyPair,
}

impl TeeKeyPair {
    /// Generate a fresh key pair for a new handshake.
    pub fn new() -> (r: Result<TeeKeyPair, Error>) {
        let keypair = RSAKeyPair::new()?;
        Ok(TeeKeyPair { keypair })
    }

    /// Export the public half in the form the KBS expects.
    pub fn export_pubkey(&self) -> (r: TeePubKey)
        ensures
            r.alg@ == PaddingMode::PKCS1v15.label_spec(),
            r.k_mod@ == b64_std_of(self.keypair.modulus_be@),
            r.k_exp@ == b64_std_of(self.keypair.exponent_be@),
    {
        let k_mod = b64_encode(self.keypair.modulus_be.as_slice());
        let k_exp = b64_encode(self.keypair.exponent_be.as_slice());
        let alg = String::from_str(PaddingMode::PKCS1v15.as_label());
        TeePubKey { alg, k_mod, k_exp }
    }

    /// Unwrap `ciphertext` with the private key under the given padding mode.
    pub fn decrypt(&self, mode: PaddingMode, ciphertext: Vec<u8>) -> (r: Result<Vec<u8>, Error>)
        ensures
            r matches Err(e) ==> e is RsaUnwrapFailed,
    {
        self.keypair.decrypt(mode, ciphertext)
    }
}

} // verus!
