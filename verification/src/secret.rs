//! Sealed secrets: the tagged schema and the unseal engine.
//!
//! A secret is either an envelope (a data-encryption key wrapped by a
//! key-encryption key, the data wrapped by the DEK) or a vault reference
//! (fetched by name from a secret store).  The provider field routes to the
//! KBS or to a KMS driver; the fetching itself is outside this library, so
//! the engine is split into a routing step that says what to fetch and a
//! finishing step that takes the fetched key material and is verified to
//! invert sealing.  DEK buffers are zeroised on every path.

use vstd::prelude::*;
use vstd::string::*;
use crate::b64::{b64_decode, b64_encode, b64_std_of};
use crate::error::Error;
use crate::jsontext::{append_map_json, append_quoted, map_json_spec, quoted_spec};
use crate::rng::random_bytes;
use crate::smap::StringMap;
use crate::symm::{aes_gcm_seal_of, decrypt, encrypt, seal_of, valid_key_iv, wipe, GCM_P_MAX,
    WrapType};
use crate::strutil::str_eq;
use crate::uri::ResourceUri;

verus! {

/// An envelope secret: `{Enc(KEK, DEK), Enc(DEK, data), parameters...}`.
pub struct Envelope {
    /// Key id locating the KEK (a resource URI for the KBS, a KMS key id
    /// otherwise).
    pub key_id: String,
    /// The DEK wrapped by the KEK, standard base64.
    pub encrypted_key: String,
    /// The data wrapped by the DEK, standard base64.
    pub encrypted_data: String,
    /// The cipher wrapping the data.
    pub wrap_type: WrapType,
    /// IV of the data encryption, standard base64.
    pub iv: String,
    /// Provider-specific parameters; for a KBS envelope, `iv` holds the
    /// base64 IV under which the KEK wraps the DEK.
    pub annotations: StringMap,
}

impl Envelope {
    /// The annotation map keeps its keys unique.
    pub open spec fn wf(self) -> bool {
        self.annotations.wf()
    }

    /// Does this envelope hold `dek` wrapped by `kek` under `kek_iv`, the
    /// KBS way (AES-256-GCM, IV in the annotations)?
    pub open spec fn kbs_wraps_dek(self, kek: Seq<u8>, dek: Seq<u8>, kek_iv: Seq<u8>) -> bool {
        &&& kek.len() == 32
        &&& kek_iv.len() == 12
        &&& dek.len() <= GCM_P_MAX
        &&& self.encrypted_key@ == b64_std_of(aes_gcm_seal_of(kek, kek_iv, dek))
        &&& exists|i: int|
            0 <= i < self.annotations.entries_spec().len()
                && #[trigger] self.annotations.entries_spec()[i] == ("iv"@, b64_std_of(kek_iv))
    }

    /// Does this envelope hold `data` wrapped by `dek` under `data_iv`?
    pub open spec fn wraps_data(self, dek: Seq<u8>, data: Seq<u8>, data_iv: Seq<u8>) -> bool {
        &&& valid_key_iv(self.wrap_type, dek, data_iv)
        &&& data.len() <= GCM_P_MAX
        &&& self.encrypted_data@ == b64_std_of(seal_of(self.wrap_type, dek, data_iv, data))
        &&& self.iv@ == b64_std_of(data_iv)
    }

    /// Unwrap the DEK with a KEK fetched from the KBS: the annotations must
    /// carry the wrapping IV, and the DEK is sealed under AES-256-GCM.
    pub fn unwrap_dek_with_kek(&self, kek: &[u8]) -> (r: Result<Vec<u8>, Error>)
        requires
            self.wf(),
        ensures
            forall|dek: Seq<u8>, kek_iv: Seq<u8>|
                #[trigger] self.kbs_wraps_dek(kek@, dek, kek_iv) ==> (r matches Ok(v) && v@
                    == dek),
            !self.annotations.has_key("iv"@) ==> (r matches Err(e) && e is Schema),
    {
        let kek_iv_b64 = match self.annotations.get("iv") {
            Some(v) => v,
            None => {
                proof {
                    assert forall|dek: Seq<u8>, kiv: Seq<u8>| !self.kbs_wraps_dek(
                        kek@,
                        dek,
                        kiv,
                    ) by {
                        if self.kbs_wraps_dek(kek@, dek, kiv) {
                            let i = choose|i: int|
                                0 <= i < self.annotations.entries_spec().len()
                                    && #[trigger] self.annotations.entries_spec()[i] == (
                                "iv"@,
                                b64_std_of(kiv),
                                );
                            assert(self.annotations.entries_spec()[i].0 == "iv"@);
                        }
                    }
                }
                return Err(Error::Schema(String::from_str(
                    "no `iv` field given in a KBS-sealed envelope secret",
                )));
            },
        };
        let enc_dek = b64_decode(self.encrypted_key.as_str())?;
        let kek_iv = b64_decode(kek_iv_b64.as_str())?;
        let r = decrypt(kek, enc_dek.as_slice(), kek_iv.as_slice(), WrapType::Aes256Gcm);
        proof {
            assert forall|dek: Seq<u8>, kiv: Seq<u8>|
                #[trigger] self.kbs_wraps_dek(kek@, dek, kiv) implies (r matches Ok(v) && v@
                == dek) by {
                assert(self.annotations.has_key("iv"@));
                assert(kek_iv_b64@ == b64_std_of(kiv));
                assert(kek_iv@ == kiv);
                assert(enc_dek@ == aes_gcm_seal_of(kek@, kiv, dek));
                assert(seal_of(WrapType::Aes256Gcm, kek@, kek_iv@, dek) == aes_gcm_seal_of(
                    kek@,
                    kiv,
                    dek,
                ));
            }
        }
        r
    }

    /// Open the data with the DEK, and zeroise the DEK on every path.
    pub fn open_with_dek(&self, dek: &mut Vec<u8>) -> (r: Result<Vec<u8>, Error>)
        ensures
            final(dek)@.len() == old(dek)@.len(),
            forall|i: int| 0 <= i < final(dek)@.len() ==> final(dek)@[i] == 0u8,
            forall|data: Seq<u8>, data_iv: Seq<u8>|
                #[trigger] self.wraps_data(old(dek)@, data, data_iv) ==> (r matches Ok(v) && v@
                    == data),
    {
        let iv = match b64_decode(self.iv.as_str()) {
            Ok(v) => v,
            Err(e) => {
                wipe(dek);
                return Err(e);
            },
        };
        let ciphertext = match b64_decode(self.encrypted_data.as_str()) {
            Ok(v) => v,
            Err(e) => {
                wipe(dek);
                return Err(e);
            },
        };
        let r = decrypt(dek.as_slice(), ciphertext.as_slice(), iv.as_slice(), self.wrap_type);
        proof {
            assert forall|data: Seq<u8>, data_iv: Seq<u8>|
                #[trigger] self.wraps_data(dek@, data, data_iv) implies (r matches Ok(v) && v@
                == data) by {
                assert(iv@ == data_iv);
                assert(ciphertext@ == seal_of(self.wrap_type, dek@, data_iv, data));
            }
        }
        wipe(dek);
        r
    }

    /// Unseal this envelope with the KEK fetched from the KBS: unwrap the
    /// DEK, open the data, zeroise the DEK.
    pub fn unseal_with_kek(&self, kek: &[u8]) -> (r: Result<Vec<u8>, Error>)
        requires
            self.wf(),
        ensures
            forall|dek: Seq<u8>, kek_iv: Seq<u8>, data: Seq<u8>, data_iv: Seq<u8>|
                #[trigger] self.kbs_wraps_dek(kek@, dek, kek_iv) && #[trigger] self.wraps_data(
                    dek,
                    data,
                    data_iv,
                ) ==> (r matches Ok(v) && v@ == data),
    {
        let mut dek = self.unwrap_dek_with_kek(kek)?;
        self.open_with_dek(&mut dek)
    }

    /// Assemble an envelope from already-computed parts: the data sealed
    /// with the DEK under `data_iv`, the DEK sealed with the KEK under
    /// `kek_iv` whose base64 goes into the annotations.
    pub fn seal_parts(
        key_id: String,
        data: &[u8],
        kek: &[u8],
        dek: &[u8],
        data_iv: &[u8],
        kek_iv: &[u8],
    ) -> (r: Envelope)
        requires
            kek@.len() == 32,
            dek@.len() == 32,
            data_iv@.len() == 12,
            kek_iv@.len() == 12,
            data@.len() <= GCM_P_MAX,
        ensures
            r.wf(),
            r.key_id@ == key_id@,
            r.wrap_type == WrapType::Aes256Gcm,
            r.kbs_wraps_dek(kek@, dek@, kek_iv@),
            r.wraps_data(dek@, data@, data_iv@),
            r.annotations.entries_spec() == seq![("iv"@, b64_std_of(kek_iv@))],
    {
        let ciphertext = match encrypt(dek, data, data_iv, WrapType::Aes256Gcm) {
            Ok(c) => c,
            Err(_) => {
                proof {
                    assert(false);
                }
                Vec::new()
            },
        };
        let encrypted_key = match encrypt(kek, dek, kek_iv, WrapType::Aes256Gcm) {
            Ok(c) => c,
            Err(_) => {
                proof {
                    assert(false);
                }
                Vec::new()
            },
        };
        let mut annotations = StringMap::new();
        annotations.insert(String::from_str("iv"), b64_encode(kek_iv));
        let env = Envelope {
            key_id,
            encrypted_key: b64_encode(encrypted_key.as_slice()),
            encrypted_data: b64_encode(ciphertext.as_slice()),
            wrap_type: WrapType::Aes256Gcm,
            iv: b64_encode(data_iv),
            annotations,
        };
        proof {
            assert(env.annotations.entries_spec() =~= seq![("iv"@, b64_std_of(kek_iv@))]);
            assert(env.annotations.entries_spec()[0] == ("iv"@, b64_std_of(kek_iv@)));
        }
        env
    }

    /// Seal `data` under a KBS-held KEK: draw a fresh 32-byte DEK and two
    /// fresh 12-byte IVs, assemble the envelope, zeroise the DEK.
    pub fn seal_with_kek(key_id: String, data: &[u8], kek: &[u8]) -> (r: Result<Envelope, Error>)
        ensures
            kek@.len() == 32 && data@.len() <= GCM_P_MAX ==> r is Ok,
            r matches Ok(env) ==> (env.wf() && env.key_id@ == key_id@ && env.wrap_type
                == WrapType::Aes256Gcm && exists|dek: Seq<u8>, kek_iv: Seq<u8>, data_iv: Seq<u8>|
                #[trigger] env.kbs_wraps_dek(kek@, dek, kek_iv) && #[trigger] env.wraps_data(
                    dek,
                    data@,
                    data_iv,
                )),
            r matches Err(e) ==> e is DecryptionFailed,
    {
        if kek.len() != 32 {
            return Err(Error::DecryptionFailed);
        }
        if data.len() as u64 > GCM_P_MAX {
            return Err(Error::DecryptionFailed);
        }
        let mut dek = random_bytes(32);
        let data_iv = random_bytes(12);
        let kek_iv = random_bytes(12);
        let env = Envelope::seal_parts(
            key_id,
            data,
            kek,
            dek.as_slice(),
            data_iv.as_slice(),
            kek_iv.as_slice(),
        );
        let ghost dek_view = dek@;
        wipe(&mut dek);
        proof {
            assert(env.kbs_wraps_dek(kek@, dek_view, kek_iv@) && env.wraps_data(
                dek_view,
                data@,
                data_iv@,
            ));
        }
        Ok(env)
    }
}

impl Envelope {
    /// Assemble a KMS-sealed envelope from already-computed parts: the
    /// data sealed with the DEK under `data_iv`, the DEK wrapped by the
    /// KMS driver, whose ancillary fields ride in the annotations.
    pub fn seal_kms_parts(
        key_id: String,
        data: &[u8],
        dek: &[u8],
        data_iv: &[u8],
        wrapped_dek: &[u8],
        annotations: StringMap,
    ) -> (r: Envelope)
        requires
            dek@.len() == 32,
            data_iv@.len() == 12,
            data@.len() <= GCM_P_MAX,
        ensures
            r.key_id@ == key_id@,
            r.wrap_type == WrapType::Aes256Gcm,
            r.encrypted_key@ == b64_std_of(wrapped_dek@),
            r.wraps_data(dek@, data@, data_iv@),
            r.annotations == annotations,
    {
        let ciphertext = match encrypt(dek, data, data_iv, WrapType::Aes256Gcm) {
            Ok(c) => c,
            Err(_) => {
                proof {
                    assert(false);
                }
                Vec::new()
            },
        };
        Envelope {
            key_id,
            encrypted_key: b64_encode(wrapped_dek),
            encrypted_data: b64_encode(ciphertext.as_slice()),
            wrap_type: WrapType::Aes256Gcm,
            iv: b64_encode(data_iv),
            annotations,
        }
    }
}

/// Sealing and unsealing are inverse: for every key id, every plaintext
/// the cipher accepts and every 32-byte KEK, unsealing what
/// [`Envelope::seal_with_kek`] sealed returns the plaintext.
pub fn seal_unseal_round_trip(key_id: String, data: &[u8], kek: &[u8]) -> (r: Vec<u8>)
    requires
        kek@.len() == 32,
        data@.len() <= GCM_P_MAX,
    ensures
        r@ == data@,
{
    let env = match Envelope::seal_with_kek(key_id, data, kek) {
        Ok(env) => env,
        Err(_) => {
            proof {
                assert(false);
            }
            unreached()
        },
    };
    let ghost (dek, kek_iv, data_iv) = choose|dek: Seq<u8>, kek_iv: Seq<u8>, data_iv: Seq<u8>|
        #[trigger] env.kbs_wraps_dek(kek@, dek, kek_iv) && #[trigger] env.wraps_data(
            dek,
            data@,
            data_iv,
        );
    match env.unseal_with_kek(kek) {
        Ok(v) => {
            proof {
                assert(env.kbs_wraps_dek(kek@, dek, kek_iv) && env.wraps_data(
                    dek,
                    data@,
                    data_iv,
                ));
            }
            v
        },
        Err(_) => {
            proof {
                assert(env.kbs_wraps_dek(kek@, dek, kek_iv) && env.wraps_data(
                    dek,
                    data@,
                    data_iv,
                ));
                assert(false);
            }
            unreached()
        },
    }
}

/// A vault secret: an indirect reference fetched by name.
pub struct VaultSecret {
    /// The id of the secret; a resource URI when the provider is the KBS.
    pub name: String,
    /// Fields used to locate and fetch the secret.
    pub annotations: StringMap,
}

/// The tagged content of a sealed secret.
pub enum SecretContent {
    Envelope(Envelope),
    Vault(VaultSecret),
}

/// A sealed secret: version, decryptor provider, tagged content.
pub struct Secret {
    pub version: String,
    /// The decryptor of the secret: `kbs`, or the name of a KMS driver.
    pub provider: String,
    pub content: SecretContent,
}

/// The two kinds of sealed secret, as named on a command line.
#[derive(Debug, Clone, Copy, PartialEq, Eq, Structural)]
pub enum SealType {
    Envelope,
    Vault,
}

impl SealType {
    /// The name of the kind, as written in a secret's `type` field.
    pub open spec fn name_spec(self) -> Seq<char> {
        match self {
            SealType::Envelope => "Envelope"@,
            SealType::Vault => "Vault"@,
        }
    }

    /// Parse the kind name; accepts exactly `Envelope` and `Vault`.
    pub fn from_name(s: &str) -> (r: Option<SealType>)
        ensures
            r matches Some(t) ==> s@ == t.name_spec(),
            r is None ==> forall|t: SealType| s@ != #[trigger] t.name_spec(),
    {
        if str_eq(s, "Envelope") {
            Some(SealType::Envelope)
        } else if str_eq(s, "Vault") {
            Some(SealType::Vault)
        } else {
            None
        }
    }
}

/// What must be fetched, and how, to unseal a secret.
pub enum UnsealPlan {
    /// Fetch the KEK at this URI from the KBS, then finish with
    /// [`Envelope::unseal_with_kek`].
    KbsEnvelope { key_uri: ResourceUri },
    /// Have the KMS driver decrypt the wrapped DEK, then finish with
    /// [`Envelope::open_with_dek`].
    KmsEnvelope { key_id: String, wrapped_dek: Vec<u8>, annotations: StringMap },
    /// Fetch the secret itself at this URI from the KBS.
    KbsVault { uri: ResourceUri },
    /// Have the KMS driver fetch the secret by name.
    KmsVault { name: String, annotations: StringMap },
}

impl Secret {
    /// The annotation maps keep their keys unique.
    pub open spec fn wf(self) -> bool {
        match self.content {
            SecretContent::Envelope(e) => e.wf(),
            SecretContent::Vault(v) => v.annotations.wf(),
        }
    }

    /// Is this secret routed to the KBS?
    pub open spec fn is_kbs(self) -> bool {
        self.provider@ == "kbs"@
    }

    /// Decide what to fetch to unseal this secret.
    ///
    /// A KBS envelope needs its `key_id` as a resource URI; a KBS vault
    /// needs its `name` as one; a malformed URI is a parse error.  Any other
    /// provider routes to the KMS driver of that name.
    pub fn unseal_plan(&self) -> (r: Result<UnsealPlan, Error>)
        ensures
            self.is_kbs() ==> match r {
                Ok(p) => match self.content {
                    SecretContent::Envelope(e) => p matches UnsealPlan::KbsEnvelope { key_uri }
                        && key_uri.is_parse_of(e.key_id@),
                    SecretContent::Vault(v) => p matches UnsealPlan::KbsVault { uri }
                        && uri.is_parse_of(v.name@),
                },
                Err(e) => e is Parse,
            },
            !self.is_kbs() ==> match self.content {
                SecretContent::Envelope(e) => match r {
                    Ok(p) => p matches UnsealPlan::KmsEnvelope { key_id, wrapped_dek, annotations }
                        && key_id@ == e.key_id@ && e.encrypted_key@ == b64_std_of(wrapped_dek@)
                        && annotations.entries_spec() == e.annotations.entries_spec(),
                    Err(err) => err is Parse,
                },
                SecretContent::Vault(v) => r matches Ok(p) && (p matches UnsealPlan::KmsVault {
                    name,
                    annotations,
                } && name@ == v.name@ && annotations.entries_spec()
                    == v.annotations.entries_spec()),
            },
            self.is_kbs() ==> match self.content {
                SecretContent::Envelope(e) => (exists|u: ResourceUri|
                    #[trigger] u.is_parse_of(e.key_id@)) ==> r is Ok,
                SecretContent::Vault(v) => (exists|u: ResourceUri|
                    #[trigger] u.is_parse_of(v.name@)) ==> r is Ok,
            },
            !self.is_kbs() ==> match self.content {
                SecretContent::Envelope(e) => (exists|b: Seq<u8>| e.encrypted_key@
                    == #[trigger] b64_std_of(b)) ==> r is Ok,
                SecretContent::Vault(_) => r is Ok,
            },
    {
        let kbs = str_eq(self.provider.as_str(), "kbs");
        proof {
            reveal_strlit("kbs");
        }
        match &self.content {
            SecretContent::Envelope(e) => {
                if kbs {
                    let key_uri = ResourceUri::try_from(e.key_id.as_str())?;
                    Ok(UnsealPlan::KbsEnvelope { key_uri })
                } else {
                    let wrapped_dek = b64_decode(e.encrypted_key.as_str())?;
                    Ok(UnsealPlan::KmsEnvelope {
                        key_id: e.key_id.clone(),
                        wrapped_dek,
                        annotations: e.annotations.duplicate(),
                    })
                }
            },
            SecretContent::Vault(v) => {
                if kbs {
                    let uri = ResourceUri::try_from(v.name.as_str())?;
                    Ok(UnsealPlan::KbsVault { uri })
                } else {
                    Ok(UnsealPlan::KmsVault {
                        name: v.name.clone(),
                        annotations: v.annotations.duplicate(),
                    })
                }
            },
        }
    }
}

/// The serialised form of an envelope secret: the flattened field list
/// `{version, provider, type, key_id, encrypted_key, encrypted_data,
/// wrap_type, iv, annotations}` in that order.
pub open spec fn envelope_secret_json_spec(version: Seq<char>, provider: Seq<char>, e: Envelope) -> Seq<char> {
    "{\"version\":"@ + quoted_spec(version) + ",\"provider\":"@ + quoted_spec(provider)
        + ",\"type\":\"Envelope\",\"key_id\":"@ + quoted_spec(e.key_id@)
        + ",\"encrypted_key\":"@ + quoted_spec(e.encrypted_key@) + ",\"encrypted_data\":"@
        + quoted_spec(e.encrypted_data@) + ",\"wrap_type\":"@ + quoted_spec(e.wrap_type.name_spec())
        + ",\"iv\":"@ + quoted_spec(e.iv@) + ",\"annotations\":"@ + map_json_spec(
        e.annotations.entries_spec(),
    ) + "}"@
}

/// The serialised form of a vault secret: the field list
/// `{version, provider, type, name, annotations}` in that order.
pub open spec fn vault_secret_json_spec(version: Seq<char>, provider: Seq<char>, v: VaultSecret) -> Seq<char> {
    "{\"version\":"@ + quoted_spec(version) + ",\"provider\":"@ + quoted_spec(provider)
        + ",\"type\":\"Vault\",\"name\":"@ + quoted_spec(v.name@) + ",\"annotations\":"@
        + map_json_spec(v.annotations.entries_spec()) + "}"@
}

/// The serialised form of a secret.
pub open spec fn secret_json_spec(s: Secret) -> Seq<char> {
    match s.content {
        SecretContent::Envelope(e) => envelope_secret_json_spec(s.version@, s.provider@, e),
        SecretContent::Vault(v) => vault_secret_json_spec(s.version@, s.provider@, v),
    }
}

impl Secret {
    /// Serialise the secret as JSON, with exactly the schema's fields.
    pub fn to_json(&self) -> (r: String)
        ensures
            r@ == secret_json_spec(*self),
    {
        let mut out = String::from_str("{\"version\":");
        append_quoted(&mut out, self.version.as_str());
        out.append(",\"provider\":");
        append_quoted(&mut out, self.provider.as_str());
        match &self.content {
            SecretContent::Envelope(e) => {
                out.append(",\"type\":\"Envelope\",\"key_id\":");
                append_quoted(&mut out, e.key_id.as_str());
                out.append(",\"encrypted_key\":");
                append_quoted(&mut out, e.encrypted_key.as_str());
                out.append(",\"encrypted_data\":");
                append_quoted(&mut out, e.encrypted_data.as_str());
                out.append(",\"wrap_type\":");
                append_quoted(&mut out, e.wrap_type.name());
                out.append(",\"iv\":");
                append_quoted(&mut out, e.iv.as_str());
                out.append(",\"annotations\":");
                append_map_json(&mut out, &e.annotations);
                out.append("}");
            },
            SecretContent::Vault(v) => {
                out.append(",\"type\":\"Vault\",\"name\":");
                append_quoted(&mut out, v.name.as_str());
                out.append(",\"annotations\":");
                append_map_json(&mut out, &v.annotations);
                out.append("}");
            },
        }
        out
    }
}

} // verus!
