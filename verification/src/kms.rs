//! KMS drivers: the capability set and the reference driver's computations.
//!
//! A driver is anything that can encrypt, decrypt and fetch secrets under
//! provider-held keys.  Drivers perform I/O of their own, so the library
//! only declares the capability traits; implementations live with the
//! embedding program.  The reference driver drives a cloud helper binary;
//! the argument building and output parsing it needs are verified here.

use vstd::prelude::*;
use vstd::string::*;
use crate::b64::{b64_decode, b64_encode, b64_std_of};
use crate::error::Error;
use crate::rng::random_bytes;
use crate::smap::StringMap;
use crate::strutil::str_eq;

verus! {

/// Extra information of an encryption or decryption, as a key-value map.
pub type Annotations = StringMap;

/// The capability set of a KMS driver.
///
/// `name` must return the provider name that schemas carry in their
/// `provider` field; the routing layer holds requests against it.
pub trait KMS {
    /// The driver's provider name.
    fn name(&self) -> String;

    /// Encrypt `data` under the provider-held key `keyid`; the driver may
    /// return ancillary fields (IVs, key versions) in the annotations.
    fn encrypt(&mut self, data: &[u8], keyid: &str) -> Result<(Vec<u8>, Annotations), Error> {
        Err(Error::Upstream(String::from_str("encrypt is not implemented by this driver")))
    }

    /// Decrypt `ciphertext` under the provider-held key `keyid`.
    fn decrypt(&mut self, ciphertext: &[u8], keyid: &str, annotations: &Annotations) -> Result<
        Vec<u8>,
        Error,
    >;

    /// Fetch the secret stored under `name`.
    fn get_secret(&mut self, name: &str, annotations: &Annotations) -> Result<Vec<u8>, Error>;

    /// Store a secret under `name`; optional.
    fn set_secret(&mut self, content: Vec<u8>, name: String) -> Result<Annotations, Error> {
        Err(Error::Upstream(String::from_str("set_secret is not implemented by this driver")))
    }
}

/// A decrypt-side driver, for consumers that never encrypt.
pub trait Decryptor {
    /// Decrypt `ciphertext` under the provider-held key `keyid`.
    fn decrypt(&mut self, ciphertext: &[u8], keyid: &str) -> Result<Vec<u8>, Error>;

    /// Fetch the secret stored under `name`.
    fn get_secret(&mut self, name: &str, annotations: &Annotations) -> Result<Vec<u8>, Error>;
}

/// An encrypt-side driver; both capabilities are optional.
pub trait Encryptor {
    /// Encrypt `data` under the provider-held key `keyid`.
    fn encrypt(&mut self, data: &[u8], keyid: &str) -> Result<(Vec<u8>, Annotations), Error> {
        Err(Error::Upstream(String::from_str("encrypt is not implemented by this driver")))
    }

    /// Store a secret under `name`.
    fn set_secret(&mut self, content: Vec<u8>, name: String) -> Result<Annotations, Error> {
        Err(Error::Upstream(String::from_str("set_secret is not implemented by this driver")))
    }
}

/// A secret-manager driver.
pub trait Vault {
    /// Fetch the secret the annotations identify.
    fn get_secret(&mut self, annotations: &Annotations) -> Result<Vec<u8>, Error>;

    /// Store a secret; optional.
    fn set_secret(&mut self, content: Vec<u8>, annotations: &Annotations) -> Result<(), Error> {
        Err(Error::Upstream(String::from_str("set_secret is not implemented by this driver")))
    }
}

/// The supported KMS providers.
#[derive(Debug, Clone, Copy, PartialEq, Eq, Structural)]
pub enum KMSEnum {
    Ali,
}

/// The supported secret-manager providers.
#[derive(Debug, Clone, Copy, PartialEq, Eq, Structural)]
pub enum VaultEnum {
    Ali,
}

/// The supported decryptor providers.
#[derive(Debug, Clone, Copy, PartialEq, Eq, Structural)]
pub enum Kms {
    Ali,
}

impl KMSEnum {
    /// Parse a provider name; accepts exactly `Ali` (case-sensitive).
    pub fn from_name(s: &str) -> (r: Option<KMSEnum>)
        ensures
            r matches Some(e) && e == KMSEnum::Ali <==> s@ == "Ali"@,
    {
        if str_eq(s, "Ali") {
            Some(KMSEnum::Ali)
        } else {
            None
        }
    }
}

impl VaultEnum {
    /// Parse a provider name; accepts exactly `Ali` (case-sensitive).
    pub fn from_name(s: &str) -> (r: Option<VaultEnum>)
        ensures
            r matches Some(e) && e == VaultEnum::Ali <==> s@ == "Ali"@,
    {
        if str_eq(s, "Ali") {
            Some(VaultEnum::Ali)
        } else {
            None
        }
    }
}

impl Kms {
    /// Parse a provider name; accepts exactly `Ali` (case-sensitive).
    pub fn from_name(s: &str) -> (r: Option<Kms>)
        ensures
            r matches Some(e) && e == Kms::Ali <==> s@ == "Ali"@,
    {
        if str_eq(s, "Ali") {
            Some(Kms::Ali)
        } else {
            None
        }
    }
}

/// The argument list for one call of the reference driver's helper binary:
/// the verb, the base64 payload, the key id and the base64 IV taken from
/// the annotations.
pub open spec fn cli_args_spec(verb: Seq<char>, payload: Seq<u8>, keyid: Seq<char>, iv_b64: Seq<char>) -> Seq<Seq<char>> {
    seq![verb, b64_std_of(payload), keyid, iv_b64]
}

/// Build the helper arguments for one call: the payload is base64-encoded
/// and the annotations must carry the IV.
fn cli_args(verb: &str, payload: &[u8], keyid: &str, annotations: &StringMap) -> (r: Result<
    Vec<String>,
    Error,
>)
    requires
        annotations.wf(),
    ensures
        !annotations.has_key("iv"@) ==> (r matches Err(e) && e is Schema),
        annotations.has_key("iv"@) ==> r is Ok,
        r matches Ok(args) ==> exists|i: int|
            0 <= i < annotations.entries_spec().len() && #[trigger] annotations.entries_spec()[i]
                == ("iv"@, args@[3]@) && args@.map_values(|a: String| a@) == cli_args_spec(
                verb@,
                payload@,
                keyid@,
                args@[3]@,
            ),
{
    let iv = match annotations.get("iv") {
        Some(iv) => iv.clone(),
        None => {
            return Err(Error::Schema(String::from_str("no iv provided")));
        },
    };
    let mut args: Vec<String> = Vec::new();
    args.push(verb.to_owned());
    args.push(b64_encode(payload));
    args.push(keyid.to_owned());
    args.push(iv);
    proof {
        assert(args@.map_values(|a: String| a@) =~= cli_args_spec(
            verb@,
            payload@,
            keyid@,
            args@[3]@,
        ));
    }
    Ok(args)
}

/// The helper arguments for an encryption.
pub fn cli_encrypt_args(data: &[u8], keyid: &str, annotations: &StringMap) -> (r: Result<
    Vec<String>,
    Error,
>)
    requires
        annotations.wf(),
    ensures
        !annotations.has_key("iv"@) ==> (r matches Err(e) && e is Schema),
        annotations.has_key("iv"@) ==> r is Ok,
        r matches Ok(args) ==> exists|i: int|
            0 <= i < annotations.entries_spec().len() && #[trigger] annotations.entries_spec()[i]
                == ("iv"@, args@[3]@) && args@.map_values(|a: String| a@) == cli_args_spec(
                "encrypt"@,
                data@,
                keyid@,
                args@[3]@,
            ),
{
    cli_args("encrypt", data, keyid, annotations)
}

/// The helper arguments for a decryption.
pub fn cli_decrypt_args(ciphertext: &[u8], keyid: &str, annotations: &StringMap) -> (r: Result<
    Vec<String>,
    Error,
>)
    requires
        annotations.wf(),
    ensures
        !annotations.has_key("iv"@) ==> (r matches Err(e) && e is Schema),
        annotations.has_key("iv"@) ==> r is Ok,
        r matches Ok(args) ==> exists|i: int|
            0 <= i < annotations.entries_spec().len() && #[trigger] annotations.entries_spec()[i]
                == ("iv"@, args@[3]@) && args@.map_values(|a: String| a@) == cli_args_spec(
                "decrypt"@,
                ciphertext@,
                keyid@,
                args@[3]@,
            ),
{
    cli_args("decrypt", ciphertext, keyid, annotations)
}

/// Decode the helper's standard output: the result, standard base64.
pub fn cli_parse_output(stdout: &str) -> (r: Result<Vec<u8>, Error>)
    ensures
        forall|b: Seq<u8>| stdout@ == #[trigger] b64_std_of(b) ==> r is Ok,
        r matches Ok(v) ==> stdout@ == b64_std_of(v@),
        r matches Ok(v) ==> forall|b: Seq<u8>| stdout@ == #[trigger] b64_std_of(b) ==> v@ == b,
        r matches Err(e) ==> e is Parse,
{
    b64_decode(stdout)
}

/// Draw a fresh 12-byte IV and return it, base64-encoded, as the `iv`
/// annotation that the reference driver's encryption takes.
pub fn generate_annotation() -> (r: StringMap)
    ensures
        r.wf(),
        exists|iv: Seq<u8>|
            iv.len() == 12 && r.entries_spec() == seq![("iv"@, #[trigger] b64_std_of(iv))],
{
    let iv = random_bytes(12);
    let mut map = StringMap::new();
    map.insert(String::from_str("iv"), b64_encode(iv.as_slice()));
    proof {
        assert(map.entries_spec() =~= seq![("iv"@, b64_std_of(iv@))]);
    }
    map
}

} // verus!
