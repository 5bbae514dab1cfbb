//! Tests of the annotation packets, the hub routing and the KMS driver path.

use aes_gcm::aead::Aead;
use aes_gcm::KeyInit;
use base64::Engine;

use rsa::traits::PublicKeyParts;

use data_hub::annotation::{AnnotationPacket, AnnotationPacketV1, AnnotationPacketV2};
use data_hub::error::Error;
use data_hub::hub::{parse_resource_uri_json, seal_with_kms, unseal_with_kms, unwrap_with_kms,
    DataHub, UnwrapPlan};
use data_hub::secret::{Secret, SecretContent};
use data_hub::kbs::Handshaker;
use data_hub::kms::{Annotations, KMS};
use data_hub::smap::StringMap;
use data_hub::tee::Tee;
use data_hub::uri::ResourceUri;


/// A small fixed RSA key: the hub tests never use it, but the engine
/// carries one.
fn fixed_handshaker(tee: Tee) -> Handshaker {
    let n = rsa::BigUint::parse_bytes(b"96302d47606bfcf87010509f988a1a43ec9b62b19162689333bb1c104b2001fba01ea158f7d7e18854be6189bd0f7a61413ac60ac0fa9086bf7c607352dca829", 16).unwrap();
    let e = rsa::BigUint::from(65537u32);
    let d = rsa::BigUint::parse_bytes(b"8b9fa84886147eae7c883e5bd0d4fb0c10a8787d39fab1dbbfa900b309146da212a44ee1d1313b77fb299498a98f47068738778700205393c0da8f91061fc981", 16).unwrap();
    let p = rsa::BigUint::parse_bytes(b"c61c0b58df51e4f298a8b5549223f5a1a411954fd39047307e6bf7e12e09ee31", 16).unwrap();
    let q = rsa::BigUint::parse_bytes(b"c213492322456fc5511e4cc5b7310355de10ba9447fa7322b6b40f8775c88379", 16).unwrap();
    let private_key = rsa::RsaPrivateKey::from_components(n, e, d, vec![p, q]).unwrap();
    let public_key = rsa::RsaPublicKey::from(&private_key);
    let modulus_be = public_key.n().to_bytes_be();
    let exponent_be = public_key.e().to_bytes_be();
    let keypair = data_hub::rsakey::RSAKeyPair { private_key, public_key, modulus_be, exponent_be };
    Handshaker { tee, tee_key: data_hub::rsakey::TeeKeyPair { keypair }, kbs_host_url: None }
}

fn gcm_encrypt(key: &[u8], iv: &[u8], data: &[u8]) -> Vec<u8> {
    let cipher = aes_gcm::Aes256Gcm::new_from_slice(key).expect("cipher");
    cipher
        .encrypt(aes_gcm::Nonce::from_slice(iv), data)
        .expect("encrypt")
}

#[test]
fn v1_unwrap_with_kek_recovers_the_lek() {
    let std = base64::engine::general_purpose::STANDARD;
    let kek = [6u8; 32];
    let lek = b"layer-encryption-key";
    let iv = [7u8; 12];
    let packet = AnnotationPacketV1 {
        kid: ResourceUri::try_from("kbs:///default/keys/k1").expect("uri"),
        wrapped_data: std.encode(gcm_encrypt(&kek, &iv, lek)),
        iv: std.encode(iv),
        wrap_type: "A256GCM".to_string(),
    };
    assert_eq!(packet.unwrap_with_kek(&kek).expect("unwrap"), lek);

    let mut bad = AnnotationPacketV1 {
        kid: ResourceUri::try_from("kbs:///default/keys/k1").expect("uri"),
        wrapped_data: packet.wrapped_data.clone(),
        iv: packet.iv.clone(),
        wrap_type: "ChaCha20".to_string(),
    };
    assert!(matches!(bad.unwrap_with_kek(&kek), Err(Error::Parse(_))));
    bad.wrap_type = "A256GCM".to_string();
    bad.iv = "?not-base64?".to_string();
    assert!(matches!(bad.unwrap_with_kek(&kek), Err(Error::Parse(_))));
}

fn kms_packet() -> AnnotationPacketV2 {
    let std = base64::engine::general_purpose::STANDARD;
    let mut annotations = StringMap::new();
    annotations.insert("region".to_string(), "cn-hangzhou".to_string());
    annotations.insert("instanceid".to_string(), "xxx".to_string());
    AnnotationPacketV2 {
        version: "0.1.0".to_string(),
        kid: "uuid00111".to_string(),
        wrapped_data: std.encode(b"wrapped-lek-bytes"),
        provider: "ali".to_string(),
        iv: None,
        wrap_type: None,
        annotations,
    }
}

/// A driver standing in for the `ali` KMS: it checks what it is asked and
/// answers a fixed LEK.
struct AliMock {
    asked: bool,
}

impl KMS for AliMock {
    fn name(&self) -> String {
        "ali".to_string()
    }

    fn decrypt(
        &mut self,
        ciphertext: &[u8],
        keyid: &str,
        annotations: &Annotations,
    ) -> Result<Vec<u8>, Error> {
        assert_eq!(ciphertext, b"wrapped-lek-bytes");
        assert_eq!(keyid, "uuid00111");
        assert_eq!(
            annotations.get("region").map(|v| v.clone()),
            Some("cn-hangzhou".to_string())
        );
        self.asked = true;
        Ok(b"the-lek".to_vec())
    }

    fn get_secret(&mut self, _name: &str, _annotations: &Annotations) -> Result<Vec<u8>, Error> {
        Err(Error::Upstream("not used here".to_string()))
    }
}

#[test]
fn v2_unwrap_with_kms_driver() {
    let packet = kms_packet();
    let mut driver = AliMock { asked: false };
    let lek = unwrap_with_kms(&packet, &mut driver).expect("unwrap");
    assert_eq!(lek, b"the-lek");
    assert!(driver.asked);
}

/// A driver whose name does not match the packet's provider.
struct OtherMock;

impl KMS for OtherMock {
    fn name(&self) -> String {
        "other".to_string()
    }

    fn decrypt(&mut self, _c: &[u8], _k: &str, _a: &Annotations) -> Result<Vec<u8>, Error> {
        panic!("must not be called for a mismatched provider");
    }

    fn get_secret(&mut self, _n: &str, _a: &Annotations) -> Result<Vec<u8>, Error> {
        panic!("must not be called for a mismatched provider");
    }
}

#[test]
fn v2_rejects_a_mismatched_driver() {
    let packet = kms_packet();
    let mut driver = OtherMock;
    let r = unwrap_with_kms(&packet, &mut driver);
    assert!(matches!(r, Err(Error::ProviderMismatch(_))));
}

#[test]
fn v2_kbs_requires_iv_and_wrap_type() {
    let mut packet = kms_packet();
    packet.provider = "kbs".to_string();
    packet.kid = "kbs:///default/keys/k1".to_string();
    packet.wrap_type = Some("A256GCM".to_string());
    packet.iv = None;
    let r = packet.to_kbs_packet();
    assert!(matches!(r, Err(Error::Schema(_))));

    packet.wrap_type = None;
    let r = packet.to_kbs_packet();
    assert!(matches!(r, Err(Error::Schema(_))));

    packet.wrap_type = Some("A256GCM".to_string());
    packet.iv = Some("aXY=".to_string());
    let v1 = packet.to_kbs_packet().expect("reduce");
    assert_eq!(v1.wrap_type, "A256GCM");
    assert_eq!(v1.iv, "aXY=");
    assert_eq!(v1.kid.tag, "k1");

    packet.kid = "not-a-uri".to_string();
    assert!(matches!(packet.to_kbs_packet(), Err(Error::Parse(_))));
}

#[test]
fn hub_routes_unwrap_plans() {
    let h = fixed_handshaker(Tee::Sample);
    let mut hub = DataHub::new(h);

    // A V2 packet for an unknown driver is a configuration error.
    let plan = hub.unwrap_key_plan(AnnotationPacket::V2(kms_packet()));
    assert!(matches!(plan, Err(Error::Config(_))));

    // Once the driver is registered, the packet routes to it.
    hub.register_driver("ali".to_string());
    match hub.unwrap_key_plan(AnnotationPacket::V2(kms_packet())).expect("plan") {
        UnwrapPlan::KmsDecrypt { provider, packet } => {
            assert_eq!(provider, "ali");
            assert_eq!(packet.kid, "uuid00111");
        },
        _ => panic!("expected a KMS plan"),
    }

    // A V2 packet for the KBS reduces to the legacy shape.
    let mut kbs_packet = kms_packet();
    kbs_packet.provider = "kbs".to_string();
    kbs_packet.kid = "kbs:///default/keys/k1".to_string();
    kbs_packet.wrap_type = Some("A256GCM".to_string());
    kbs_packet.iv = Some("aXY=".to_string());
    match hub.unwrap_key_plan(AnnotationPacket::V2(kbs_packet)).expect("plan") {
        UnwrapPlan::KbsFetch(v1) => assert_eq!(v1.kid.resource_path(), "default/keys/k1"),
        _ => panic!("expected a KBS plan"),
    }
}

/// A driver that wraps by remembering: encryption stores the DEK and hands
/// back a tag; decryption returns the stored DEK for that tag.
struct RememberingKms {
    stored: Vec<u8>,
}

impl KMS for RememberingKms {
    fn name(&self) -> String {
        "ali".to_string()
    }

    fn encrypt(&mut self, data: &[u8], _keyid: &str) -> Result<(Vec<u8>, Annotations), Error> {
        self.stored = data.to_vec();
        Ok((b"wrapped-tag".to_vec(), StringMap::new()))
    }

    fn decrypt(
        &mut self,
        ciphertext: &[u8],
        _keyid: &str,
        _annotations: &Annotations,
    ) -> Result<Vec<u8>, Error> {
        assert_eq!(ciphertext, b"wrapped-tag");
        Ok(self.stored.clone())
    }

    fn get_secret(&mut self, _name: &str, _annotations: &Annotations) -> Result<Vec<u8>, Error> {
        Err(Error::Upstream("not used here".to_string()))
    }
}

#[test]
fn kms_seal_then_unseal_returns_the_plaintext() {
    let mut driver = RememberingKms { stored: Vec::new() };
    let env = seal_with_kms("key-7".to_string(), b"kms round trip", &mut driver).expect("seal");
    assert_eq!(env.key_id, "key-7");

    let secret = Secret {
        version: "0.1.0".to_string(),
        provider: "ali".to_string(),
        content: SecretContent::Envelope(env),
    };
    let plaintext = unseal_with_kms(&secret, &mut driver).expect("unseal");
    assert_eq!(plaintext, b"kms round trip");
}

#[test]
fn kms_unseal_refuses_a_kbs_sealed_secret() {
    let mut driver = RememberingKms { stored: Vec::new() };
    let secret = Secret {
        version: "0.1.0".to_string(),
        provider: "kbs".to_string(),
        content: SecretContent::Vault(data_hub::secret::VaultSecret {
            name: "kbs:///default/secrets/s1".to_string(),
            annotations: StringMap::new(),
        }),
    };
    let r = unseal_with_kms(&secret, &mut driver);
    assert!(matches!(r, Err(Error::Config(_))));
}

#[test]
fn resource_uri_json_form_is_unquoted_and_parsed() {
    let u = parse_resource_uri_json("\"kbs:///default/keys/k1\"").expect("parse");
    assert_eq!(u.resource_path(), "default/keys/k1");
    assert!(matches!(
        parse_resource_uri_json("kbs:///default/keys/k1"),
        Err(Error::Parse(_))
    ));
}
