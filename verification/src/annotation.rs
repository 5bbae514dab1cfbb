//! Annotation packets: the records on an encrypted image layer that say how
//! to recover its layer encryption key (LEK).
//!
//! The legacy form is KBS-only; the versioned form routes to the KBS or to
//! a KMS driver by its `provider` field.  The two are told apart by their
//! JSON shape: the legacy form has no `version` and its `kid` is a resource
//! URI.  Unwrapping is split as elsewhere: validation and routing are
//! verified here, the fetch or driver call happens outside, and the
//! finishing decryption is verified against the sealing relation.

use vstd::prelude::*;
use vstd::string::*;
use crate::b64::{b64_decode, b64_std_of};
use crate::error::Error;
use crate::smap::StringMap;
use crate::strutil::str_eq;
use crate::symm::{decrypt, seal_of, valid_key_iv, GCM_P_MAX, WrapType};
use crate::uri::ResourceUri;

verus! {

/// The legacy, KBS-only annotation packet.
pub struct AnnotationPacketV1 {
    /// Where the KBS holds the KEK.
    pub kid: ResourceUri,
    /// The wrapped LEK, standard base64.
    pub wrapped_data: String,
    /// IV of the wrap, standard base64.
    pub iv: String,
    /// The cipher, by its JWE label (`A256GCM` or `A256CTR`).
    pub wrap_type: String,
}

impl AnnotationPacketV1 {
    /// Does this packet hold `lek` wrapped by `kek` under `iv` with `wt`?
    pub open spec fn wraps_lek(self, kek: Seq<u8>, lek: Seq<u8>, iv: Seq<u8>, wt: WrapType) -> bool {
        &&& self.wrap_type@ == wt.alg_spec()
        &&& valid_key_iv(wt, kek, iv)
        &&& lek.len() <= GCM_P_MAX
        &&& self.wrapped_data@ == b64_std_of(seal_of(wt, kek, iv, lek))
        &&& self.iv@ == b64_std_of(iv)
    }

    /// Unwrap the LEK with the KEK fetched from the KBS at `kid`.
    pub fn unwrap_with_kek(&self, kek: &[u8]) -> (r: Result<Vec<u8>, Error>)
        ensures
            forall|lek: Seq<u8>, iv: Seq<u8>, wt: WrapType|
                #[trigger] self.wraps_lek(kek@, lek, iv, wt) ==> (r matches Ok(v) && v@ == lek),
            (forall|wt: WrapType| self.wrap_type@ != #[trigger] wt.alg_spec()) ==> (
            r matches Err(e) && e is Parse),
            (forall|b: Seq<u8>| self.iv@ != #[trigger] b64_std_of(b)) ==> (r matches Err(e)
                && e is Parse),
            (forall|b: Seq<u8>| self.wrapped_data@ != #[trigger] b64_std_of(b)) ==> (
            r matches Err(e) && e is Parse),
    {
        let wt = match WrapType::from_alg(self.wrap_type.as_str()) {
            Some(wt) => wt,
            None => {
                return Err(Error::Parse(String::from_str("unsupported wrap type")));
            },
        };
        let iv = b64_decode(self.iv.as_str())?;
        let wrapped = b64_decode(self.wrapped_data.as_str())?;
        let r = decrypt(kek, wrapped.as_slice(), iv.as_slice(), wt);
        proof {
            assert forall|lek: Seq<u8>, ivs: Seq<u8>, w: WrapType|
                #[trigger] self.wraps_lek(kek@, lek, ivs, w) implies (r matches Ok(v) && v@
                == lek) by {
                assert(w == wt) by {
                    reveal_strlit("A256GCM");
                    reveal_strlit("A256CTR");
                    assert(self.wrap_type@ == w.alg_spec() && self.wrap_type@ == wt.alg_spec());
                    assert("A256GCM"@[4] != "A256CTR"@[4]);
                }
                assert(iv@ == ivs);
                assert(wrapped@ == seal_of(w, kek@, ivs, lek));
            }
        }
        r
    }
}

/// A request to a KMS driver to decrypt a wrapped LEK.
pub struct KmsUnwrapRequest {
    /// The wrapped LEK, decoded.
    pub ciphertext: Vec<u8>,
    /// The driver's key id.
    pub keyid: String,
    /// Driver-specific parameters.
    pub annotations: StringMap,
}

/// The versioned annotation packet: KBS or KMS.
pub struct AnnotationPacketV2 {
    /// Version of the packet.
    pub version: String,
    /// Key id: a resource URI when the provider is `kbs`, a KMS key id
    /// otherwise.
    pub kid: String,
    /// The wrapped LEK, standard base64.
    pub wrapped_data: String,
    /// Who holds the KEK: `kbs`, or the name of a KMS driver.
    pub provider: String,
    /// IV of the wrap, standard base64; required when the provider is `kbs`.
    pub iv: Option<String>,
    /// The cipher's JWE label; required when the provider is `kbs`.
    pub wrap_type: Option<String>,
    /// More information for fetching the KEK.
    pub annotations: StringMap,
}

impl AnnotationPacketV2 {
    /// Is this packet routed to the KBS?
    pub open spec fn is_kbs(self) -> bool {
        self.provider@ == "kbs"@
    }

    /// Check the KBS constraints and reduce to the legacy shape: the
    /// provider must be `kbs`, `wrap_type` and `iv` must be present, and
    /// `kid` must parse as a resource URI.
    pub fn to_kbs_packet(&self) -> (r: Result<AnnotationPacketV1, Error>)
        ensures
            !self.is_kbs() ==> (r matches Err(e) && e is ProviderMismatch),
            self.is_kbs() && self.wrap_type is None ==> (r matches Err(e) && e is Schema),
            self.is_kbs() && self.wrap_type is Some && self.iv is None ==> (r matches Err(e)
                && e is Schema),
            r matches Ok(p) ==> (self.is_kbs() && (self.wrap_type matches Some(w) && p.wrap_type@
                == w@) && (self.iv matches Some(iv) && p.iv@ == iv@) && p.wrapped_data@
                == self.wrapped_data@ && p.kid.is_parse_of(self.kid@)),
            self.is_kbs() && self.wrap_type is Some && self.iv is Some && (forall|
                u: ResourceUri,
            | !#[trigger] u.is_parse_of(self.kid@)) ==> (r matches Err(e) && e is Parse),
            self.is_kbs() && self.wrap_type is Some && self.iv is Some && (exists|u: ResourceUri|
                #[trigger] u.is_parse_of(self.kid@)) ==> r is Ok,
    {
        if !str_eq(self.provider.as_str(), "kbs") {
            proof {
                reveal_strlit("kbs");
            }
            return Err(Error::ProviderMismatch(self.provider.clone()));
        }
        let wrap_type = match &self.wrap_type {
            Some(w) => w.clone(),
            None => {
                return Err(Error::Schema(String::from_str(
                    "the KEK is provided by `kbs` but no `wrap_type` is defined inside the annotation packet",
                )));
            },
        };
        let iv = match &self.iv {
            Some(iv) => iv.clone(),
            None => {
                return Err(Error::Schema(String::from_str(
                    "the KEK is provided by `kbs` but no `iv` is defined inside the annotation packet",
                )));
            },
        };
        let kid = ResourceUri::try_from(self.kid.as_str())?;
        Ok(AnnotationPacketV1 {
            kid,
            wrapped_data: self.wrapped_data.clone(),
            iv,
            wrap_type,
        })
    }

    /// Build the decrypt request for a KMS driver, after checking that the
    /// driver's name matches the packet's provider.
    pub fn kms_request(&self, driver_name: &str) -> (r: Result<KmsUnwrapRequest, Error>)
        ensures
            (forall|b: Seq<u8>| self.wrapped_data@ != #[trigger] b64_std_of(b)) ==> (
            r matches Err(e) && e is Parse),
            driver_name@ != self.provider@ ==> !(r is Ok),
            driver_name@ != self.provider@ && (exists|b: Seq<u8>| self.wrapped_data@
                == #[trigger] b64_std_of(b)) ==> (r matches Err(e) && e is ProviderMismatch),
            r matches Ok(req) ==> (driver_name@ == self.provider@ && self.wrapped_data@
                == b64_std_of(req.ciphertext@) && req.keyid@ == self.kid@
                && req.annotations.entries_spec() == self.annotations.entries_spec()),
            driver_name@ == self.provider@ && (exists|b: Seq<u8>| self.wrapped_data@
                == #[trigger] b64_std_of(b)) ==> r is Ok,
    {
        let ciphertext = b64_decode(self.wrapped_data.as_str())?;
        if !str_eq(driver_name, self.provider.as_str()) {
            return Err(Error::ProviderMismatch(self.provider.clone()));
        }
        Ok(KmsUnwrapRequest {
            ciphertext,
            keyid: self.kid.clone(),
            annotations: self.annotations.duplicate(),
        })
    }
}

/// An annotation packet of either shape.
pub enum AnnotationPacket {
    /// Legacy format, decrypted through the KBS.
    V1(AnnotationPacketV1),
    /// Versioned format, KBS or KMS.
    V2(AnnotationPacketV2),
}

} // verus!
