//! The data hub facade: one KBS engine, a registry of KMS driver names,
//! and the routing of the three front-door operations.
//!
//! The hub's decisions are verified here; the I/O that carries them out
//! (HTTP requests, driver calls) is driven outside.  `unwrap_key` and
//! `unseal_secret` reduce their input to a plan naming what to fetch or
//! which driver to call; `get_resource` reduces a JSON-quoted URI to a
//! parsed address.

use vstd::prelude::*;
use vstd::string::*;
use crate::annotation::{AnnotationPacket, AnnotationPacketV1, AnnotationPacketV2};
use crate::b64::b64_std_of;
use crate::error::Error;
use crate::kbs::Handshaker;
use crate::kms::KMS;
use crate::rng::random_bytes;
use crate::secret::{Envelope, Secret, SecretContent, UnsealPlan};
use crate::symm::{wipe, GCM_P_MAX, WrapType};
use crate::strutil::{str_eq, substring};
use crate::uri::ResourceUri;

verus! {

/// How to recover a layer encryption key.
pub enum UnwrapPlan {
    /// Fetch the KEK at the packet's `kid` from the KBS, then finish with
    /// [`AnnotationPacketV1::unwrap_with_kek`].
    KbsFetch(AnnotationPacketV1),
    /// Hand the packet to the KMS driver of this name, through
    /// [`AnnotationPacketV2::kms_request`].
    KmsDecrypt { provider: String, packet: AnnotationPacketV2 },
}

/// The hub: the shared KBS engine and the names of the initialised KMS
/// drivers.
pub struct DataHub {
    /// The KBS handshake engine and session.
    pub kbs: Handshaker,
    /// The provider names with an initialised driver.
    pub kms_drivers: Vec<String>,
}

impl DataHub {
    /// A hub around a KBS engine, with no KMS drivers yet.
    pub fn new(kbs: Handshaker) -> (r: DataHub)
        ensures
            r.kbs == kbs,
            r.kms_drivers@ == Seq::<String>::empty(),
    {
        let kms_drivers: Vec<String> = Vec::new();
        proof {
            assert(kms_drivers@ =~= Seq::<String>::empty());
        }
        DataHub { kbs, kms_drivers }
    }

    /// Is a driver of this name initialised?
    pub open spec fn has_driver_spec(self, name: Seq<char>) -> bool {
        exists|i: int| 0 <= i < self.kms_drivers@.len() && (#[trigger] self.kms_drivers@[i])@
            == name
    }

    /// Record that a driver of this name is initialised.
    pub fn register_driver(&mut self, name: String)
        ensures
            final(self).kms_drivers@ == old(self).kms_drivers@.push(name),
            final(self).kbs == old(self).kbs,
            final(self).has_driver_spec(name@),
    {
        self.kms_drivers.push(name);
        proof {
            assert((self.kms_drivers@[self.kms_drivers@.len() - 1])@ == name@);
        }
    }

    /// Is a driver of this name initialised?
    pub fn has_driver(&self, name: &str) -> (r: bool)
        ensures
            r == self.has_driver_spec(name@),
    {
        let n = self.kms_drivers.len();
        let mut i: usize = 0;
        while i < n
            invariant
                n == self.kms_drivers@.len(),
                0 <= i <= n,
                forall|j: int| 0 <= j < i ==> (#[trigger] self.kms_drivers@[j])@ != name@,
            decreases n - i,
        {
            if str_eq(self.kms_drivers[i].as_str(), name) {
                return true;
            }
            i += 1;
        }
        false
    }

    /// Decide how to recover the LEK of an annotation packet.
    ///
    /// The legacy shape always goes to the KBS.  The versioned shape goes
    /// to the KBS when its provider is `kbs` (with the schema checks of
    /// [`AnnotationPacketV2::to_kbs_packet`]), and otherwise to the driver
    /// named by its provider, which must be initialised.
    pub fn unwrap_key_plan(&self, packet: AnnotationPacket) -> (r: Result<UnwrapPlan, Error>)
        ensures
            match packet {
                AnnotationPacket::V1(v1) => r matches Ok(p) && (p matches UnwrapPlan::KbsFetch(q)
                    && q == v1),
                AnnotationPacket::V2(v2) => {
                    &&& v2.is_kbs() && v2.wrap_type is None ==> (r matches Err(e) && e is Schema)
                    &&& v2.is_kbs() && v2.wrap_type is Some && v2.iv is None ==> (r matches Err(e)
                        && e is Schema)
                    &&& v2.is_kbs() && v2.wrap_type is Some && v2.iv is Some && (forall|
                        u: ResourceUri,
                    | !#[trigger] u.is_parse_of(v2.kid@)) ==> (r matches Err(e) && e is Parse)
                    &&& v2.is_kbs() && v2.wrap_type is Some && v2.iv is Some && (exists|
                        u: ResourceUri,
                    | #[trigger] u.is_parse_of(v2.kid@)) ==> r is Ok
                    &&& v2.is_kbs() ==> (r matches Ok(p) ==> (p matches UnwrapPlan::KbsFetch(q)
                        && (v2.wrap_type matches Some(w) && q.wrap_type@ == w@) && (
                    v2.iv matches Some(iv) && q.iv@ == iv@) && q.wrapped_data@ == v2.wrapped_data@
                        && q.kid.is_parse_of(v2.kid@)))
                    &&& !v2.is_kbs() && self.has_driver_spec(v2.provider@) ==> (r matches Ok(p)
                        && (p matches UnwrapPlan::KmsDecrypt { provider, packet } && provider@
                        == v2.provider@ && packet == v2))
                    &&& !v2.is_kbs() && !self.has_driver_spec(v2.provider@) ==> (r matches Err(e)
                        && e is Config)
                },
            },
    {
        match packet {
            AnnotationPacket::V1(v1) => Ok(UnwrapPlan::KbsFetch(v1)),
            AnnotationPacket::V2(v2) => {
                if str_eq(v2.provider.as_str(), "kbs") {
                    proof {
                        reveal_strlit("kbs");
                    }
                    let v1 = v2.to_kbs_packet()?;
                    Ok(UnwrapPlan::KbsFetch(v1))
                } else if self.has_driver(v2.provider.as_str()) {
                    Ok(UnwrapPlan::KmsDecrypt { provider: v2.provider.clone(), packet: v2 })
                } else {
                    let mut msg = String::from_str("no KMS driver named ");
                    msg.append(v2.provider.as_str());
                    msg.append(" found to unwrap the image's LEK");
                    Err(Error::Config(msg))
                }
            },
        }
    }

    /// Decide how to unseal a secret: through the KBS for provider `kbs`,
    /// through the initialised driver of that name otherwise.
    pub fn unseal_secret_plan(&self, secret: &Secret) -> (r: Result<UnsealPlan, Error>)
        ensures
            !secret.is_kbs() && !self.has_driver_spec(secret.provider@) ==> (r matches Err(e)
                && e is Config),
            secret.is_kbs() ==> match r {
                Ok(p) => match secret.content {
                    SecretContent::Envelope(e) => p matches UnsealPlan::KbsEnvelope { key_uri }
                        && key_uri.is_parse_of(e.key_id@),
                    SecretContent::Vault(v) => p matches UnsealPlan::KbsVault { uri }
                        && uri.is_parse_of(v.name@),
                },
                Err(e) => e is Parse,
            },
            secret.is_kbs() ==> match secret.content {
                SecretContent::Envelope(e) => (exists|u: ResourceUri|
                    #[trigger] u.is_parse_of(e.key_id@)) ==> r is Ok,
                SecretContent::Vault(v) => (exists|u: ResourceUri|
                    #[trigger] u.is_parse_of(v.name@)) ==> r is Ok,
            },
            !secret.is_kbs() && self.has_driver_spec(secret.provider@) ==> match secret.content {
                SecretContent::Envelope(e) => match r {
                    Ok(p) => p matches UnsealPlan::KmsEnvelope { key_id, wrapped_dek, annotations }
                        && key_id@ == e.key_id@ && e.encrypted_key@ == b64_std_of(wrapped_dek@)
                        && annotations.entries_spec() == e.annotations.entries_spec(),
                    Err(err) => err is Parse,
                },
                SecretContent::Vault(v) => r matches Ok(p) && (p matches UnsealPlan::KmsVault {
                    name,
                    annotations,
                } && name@ == v.name@ && annotations.entries_spec()
                    == v.annotations.entries_spec()),
            },
            !secret.is_kbs() && self.has_driver_spec(secret.provider@) ==> match secret.content {
                SecretContent::Envelope(e) => (exists|b: Seq<u8>| e.encrypted_key@
                    == #[trigger] b64_std_of(b)) ==> r is Ok,
                SecretContent::Vault(_) => r is Ok,
            },
    {
        if !str_eq(secret.provider.as_str(), "kbs") && !self.has_driver(secret.provider.as_str()) {
            proof {
                reveal_strlit("kbs");
            }
            let mut msg = String::from_str("no KMS driver named ");
            msg.append(secret.provider.as_str());
            msg.append(" found to unseal the secret");
            return Err(Error::Config(msg));
        }
        secret.unseal_plan()
    }
}

/// Parse the JSON-quoted textual form of a resource URI, as the front door
/// receives it: the URI between double quotes, no escapes.
pub fn parse_resource_uri_json(s: &str) -> (r: Result<ResourceUri, Error>)
    ensures
        r matches Ok(u) ==> exists|inner: Seq<char>|
            s@ == seq!['"'] + inner + seq!['"'] && #[trigger] u.is_parse_of(inner),
        r matches Err(e) ==> e is Parse,
        forall|inner: Seq<char>, u: ResourceUri|
            s@ == seq!['"'] + inner + seq!['"'] && #[trigger] u.is_parse_of(inner) ==> r is Ok,
{
    let len = s.unicode_len();
    let quoted = len >= 2 && s.get_char(0) == '"' && s.get_char(len - 1) == '"';
    if !quoted {
        proof {
            assert forall|inner: Seq<char>, u: ResourceUri|
                !(s@ == seq!['"'] + inner + seq!['"'] && #[trigger] u.is_parse_of(inner)) by {
                let q = seq!['"'] + inner + seq!['"'];
                assert(q.len() == inner.len() + 2);
                assert(q[0] == '"');
                assert(q[q.len() - 1] == '"');
            }
        }
        return Err(Error::Parse(String::from_str("resource URI must be a JSON string")));
    }
    let inner = substring(s, 1, len - 1);
    let r = ResourceUri::try_from(inner.as_str());
    proof {
        assert(s@ =~= seq!['"'] + inner@ + seq!['"']);
        assert forall|quoted_inner: Seq<char>, u: ResourceUri|
            s@ == seq!['"'] + quoted_inner + seq!['"'] && #[trigger] u.is_parse_of(quoted_inner)
            implies r is Ok by {
            assert(quoted_inner =~= inner@);
        }
    }
    r
}

/// Unwrap a versioned packet through a KMS driver: the driver's name must
/// match the packet's provider; the wrapped LEK goes to the driver.  What
/// the driver returns is the driver's own; the packet checks are the
/// library's, per [`AnnotationPacketV2::kms_request`].
pub fn unwrap_with_kms<K: KMS>(packet: &AnnotationPacketV2, kms: &mut K) -> (r: Result<
    Vec<u8>,
    Error,
>)
    ensures
        (forall|b: Seq<u8>| packet.wrapped_data@ != #[trigger] b64_std_of(b)) ==> (
        r matches Err(e) && e is Parse),
{
    let name = kms.name();
    let request = packet.kms_request(name.as_str())?;
    kms.decrypt(request.ciphertext.as_slice(), request.keyid.as_str(), &request.annotations)
}

/// Seal `data` under a KMS-held key: draw a fresh 32-byte DEK and a fresh
/// 12-byte IV, seal the data, have the driver wrap the DEK, and zeroise
/// the DEK; the driver's ancillary fields become the annotations.
pub fn seal_with_kms<K: KMS>(key_id: String, data: &[u8], kms: &mut K) -> (r: Result<
    Envelope,
    Error,
>)
    ensures
        data@.len() > GCM_P_MAX ==> (r matches Err(e) && e is DecryptionFailed),
        r matches Ok(env) ==> (env.key_id@ == key_id@ && env.wrap_type == WrapType::Aes256Gcm
            && exists|dek: Seq<u8>, data_iv: Seq<u8>| #[trigger] env.wraps_data(
            dek,
            data@,
            data_iv,
        )),
{
    if data.len() as u64 > GCM_P_MAX {
        return Err(Error::DecryptionFailed);
    }
    let mut dek = random_bytes(32);
    let data_iv = random_bytes(12);
    let wrapped = kms.encrypt(dek.as_slice(), key_id.as_str());
    let (wrapped_dek, annotations) = match wrapped {
        Ok(x) => x,
        Err(e) => {
            wipe(&mut dek);
            return Err(e);
        },
    };
    let env = Envelope::seal_kms_parts(
        key_id,
        data,
        dek.as_slice(),
        data_iv.as_slice(),
        wrapped_dek.as_slice(),
        annotations,
    );
    let ghost dek_view = dek@;
    wipe(&mut dek);
    proof {
        assert(env.wraps_data(dek_view, data@, data_iv@));
    }
    Ok(env)
}

/// Unseal a secret through a KMS driver: the DEK of an envelope is
/// unwrapped by the driver and the data opened with it (and zeroised, per
/// [`Envelope::open_with_dek`]); a vault secret is fetched by name.  A
/// secret sealed by the KBS does not belong here and is refused.
pub fn unseal_with_kms<K: KMS>(secret: &Secret, kms: &mut K) -> (r: Result<Vec<u8>, Error>)
    ensures
        secret.is_kbs() ==> (r matches Err(e) && (e is Config || e is Parse)),
        !secret.is_kbs() ==> match secret.content {
            SecretContent::Envelope(e) => (forall|b: Seq<u8>| e.encrypted_key@
                != #[trigger] b64_std_of(b)) ==> (r matches Err(err) && err is Parse),
            SecretContent::Vault(_) => true,
        },
{
    match secret.unseal_plan()? {
        UnsealPlan::KmsEnvelope { key_id, wrapped_dek, annotations } => {
            let mut dek = kms.decrypt(wrapped_dek.as_slice(), key_id.as_str(), &annotations)?;
            match &secret.content {
                SecretContent::Envelope(env) => env.open_with_dek(&mut dek),
                SecretContent::Vault(_) => {
                    wipe(&mut dek);
                    Err(Error::Schema(String::from_str("plan does not match content")))
                },
            }
        },
        UnsealPlan::KmsVault { name, annotations } => kms.get_secret(name.as_str(), &annotations),
        UnsealPlan::KbsEnvelope { .. } => Err(Error::Config(String::from_str(
            "secret is sealed by the KBS, not by a KMS driver",
        ))),
        UnsealPlan::KbsVault { .. } => Err(Error::Config(String::from_str(
            "secret is sealed by the KBS, not by a KMS driver",
        ))),
    }
}

} // verus!
