//! Tests of envelope sealing and unsealing, secret routing and the
//! serialised form.

use aes_gcm::aead::Aead;
use aes_gcm::KeyInit;
use base64::Engine;

use data_hub::error::Error;
use data_hub::secret::{seal_unseal_round_trip, Envelope, SealType, Secret, SecretContent,
    UnsealPlan, VaultSecret};
use data_hub::smap::StringMap;
use data_hub::symm::WrapType;

fn gcm_encrypt(key: &[u8], iv: &[u8], data: &[u8]) -> Vec<u8> {
    let cipher = aes_gcm::Aes256Gcm::new_from_slice(key).expect("cipher");
    cipher
        .encrypt(aes_gcm::Nonce::from_slice(iv), data)
        .expect("encrypt")
}

/// The envelope of the KBS unseal scenario: KEK wraps DEK under iv1, DEK
/// wraps `"hello"` under iv2.
fn hello_envelope(kek: &[u8; 32], dek: &[u8; 32]) -> Envelope {
    let std = base64::engine::general_purpose::STANDARD;
    let iv1 = [1u8; 12];
    let iv2 = [2u8; 12];
    let mut annotations = StringMap::new();
    annotations.insert("iv".to_string(), std.encode(iv1));
    Envelope {
        key_id: "kbs:///default/keys/k1".to_string(),
        encrypted_key: std.encode(gcm_encrypt(kek, &iv1, dek)),
        encrypted_data: std.encode(gcm_encrypt(dek, &iv2, b"hello")),
        wrap_type: WrapType::Aes256Gcm,
        iv: std.encode(iv2),
        annotations,
    }
}

#[test]
fn envelope_unseal_with_kbs_kek() {
    let kek = [3u8; 32];
    let dek = [4u8; 32];
    let env = hello_envelope(&kek, &dek);
    let plaintext = env.unseal_with_kek(&kek).expect("unseal");
    assert_eq!(plaintext, b"hello");
}

#[test]
fn envelope_unseal_needs_the_iv_annotation() {
    let kek = [3u8; 32];
    let dek = [4u8; 32];
    let mut env = hello_envelope(&kek, &dek);
    env.annotations = StringMap::new();
    let r = env.unseal_with_kek(&kek);
    assert!(matches!(r, Err(Error::Schema(_))));
}

#[test]
fn envelope_unseal_detects_forgery() {
    let kek = [3u8; 32];
    let dek = [4u8; 32];
    let mut env = hello_envelope(&kek, &dek);
    // Flip the ciphertext: the authentication tag must catch it.
    let std = base64::engine::general_purpose::STANDARD;
    let mut ct = std.decode(&env.encrypted_data).unwrap();
    ct[0] ^= 1;
    env.encrypted_data = std.encode(ct);
    let r = env.unseal_with_kek(&kek);
    assert!(matches!(r, Err(Error::DecryptionFailed)));
}

#[test]
fn seal_then_unseal_returns_the_plaintext() {
    let kek = [5u8; 32];
    let out = seal_unseal_round_trip("kbs:///default/keys/k1".to_string(), b"round trip", &kek);
    assert_eq!(out, b"round trip");

    let env = Envelope::seal_with_kek("kbs:///default/keys/k1".to_string(), b"payload", &kek)
        .expect("seal");
    assert_eq!(env.unseal_with_kek(&kek).expect("unseal"), b"payload");
}

#[test]
fn open_with_dek_zeroises_the_key() {
    let kek = [3u8; 32];
    let dek = [4u8; 32];
    let env = hello_envelope(&kek, &dek);
    let mut dek_buf = dek.to_vec();
    let plaintext = env.open_with_dek(&mut dek_buf).expect("open");
    assert_eq!(plaintext, b"hello");
    assert_eq!(dek_buf, vec![0u8; 32]);

    // The DEK is zeroised on failing paths too.
    let mut dek_buf = dek.to_vec();
    let mut broken = hello_envelope(&kek, &dek);
    broken.iv = "!!!".to_string();
    assert!(broken.open_with_dek(&mut dek_buf).is_err());
    assert_eq!(dek_buf, vec![0u8; 32]);
}

#[test]
fn unseal_plan_routes_by_provider() {
    let kek = [3u8; 32];
    let dek = [4u8; 32];
    let env = hello_envelope(&kek, &dek);
    let std = base64::engine::general_purpose::STANDARD;
    let wrapped = std.decode(&env.encrypted_key).unwrap();

    let kbs_secret = Secret {
        version: "0.1.0".to_string(),
        provider: "kbs".to_string(),
        content: SecretContent::Envelope(hello_envelope(&kek, &dek)),
    };
    match kbs_secret.unseal_plan().expect("plan") {
        UnsealPlan::KbsEnvelope { key_uri } => {
            assert_eq!(key_uri.repository, "default");
            assert_eq!(key_uri.resource_type, "keys");
            assert_eq!(key_uri.tag, "k1");
        },
        _ => panic!("expected a KBS envelope plan"),
    }

    let kms_secret = Secret {
        version: "0.1.0".to_string(),
        provider: "ali".to_string(),
        content: SecretContent::Envelope(env),
    };
    match kms_secret.unseal_plan().expect("plan") {
        UnsealPlan::KmsEnvelope { key_id, wrapped_dek, .. } => {
            assert_eq!(key_id, "kbs:///default/keys/k1");
            assert_eq!(wrapped_dek, wrapped);
        },
        _ => panic!("expected a KMS envelope plan"),
    }

    let vault_secret = Secret {
        version: "0.1.0".to_string(),
        provider: "kbs".to_string(),
        content: SecretContent::Vault(VaultSecret {
            name: "kbs:///default/secrets/s1".to_string(),
            annotations: StringMap::new(),
        }),
    };
    match vault_secret.unseal_plan().expect("plan") {
        UnsealPlan::KbsVault { uri } => assert_eq!(uri.resource_type, "secrets"),
        _ => panic!("expected a KBS vault plan"),
    }

    let bad_uri = Secret {
        version: "0.1.0".to_string(),
        provider: "kbs".to_string(),
        content: SecretContent::Vault(VaultSecret {
            name: "not-a-uri".to_string(),
            annotations: StringMap::new(),
        }),
    };
    assert!(matches!(bad_uri.unseal_plan(), Err(Error::Parse(_))));
}

#[test]
fn serialized_envelope_secret_has_exactly_the_schema_fields() {
    let mut annotations = StringMap::new();
    annotations.insert("iv".to_string(), "www2".to_string());
    let secret = Secret {
        version: "0.1.0".to_string(),
        provider: "ali".to_string(),
        content: SecretContent::Envelope(Envelope {
            key_id: "xxx".to_string(),
            encrypted_key: "yyy".to_string(),
            encrypted_data: "zzz".to_string(),
            wrap_type: WrapType::Aes256Gcm,
            iv: "www".to_string(),
            annotations,
        }),
    };
    let text = secret.to_json();
    let value: serde_json::Value = serde_json::from_str(&text).expect("valid JSON");
    let obj = value.as_object().expect("an object");

    let mut keys: Vec<&str> = obj.keys().map(|k| k.as_str()).collect();
    keys.sort();
    let mut expected = vec![
        "annotations", "encrypted_data", "encrypted_key", "iv", "key_id", "provider", "type",
        "version", "wrap_type",
    ];
    expected.sort();
    assert_eq!(keys, expected);

    assert_eq!(obj["version"], serde_json::Value::String("0.1.0".into()));
    assert_eq!(obj["provider"], serde_json::Value::String("ali".into()));
    assert_eq!(obj["type"], serde_json::Value::String("Envelope".into()));
    assert_eq!(obj["key_id"], serde_json::Value::String("xxx".into()));
    assert_eq!(obj["encrypted_key"], serde_json::Value::String("yyy".into()));
    assert_eq!(obj["encrypted_data"], serde_json::Value::String("zzz".into()));
    assert_eq!(obj["wrap_type"], serde_json::Value::String("Aes256Gcm".into()));
    assert_eq!(obj["iv"], serde_json::Value::String("www".into()));
    assert_eq!(obj["annotations"]["iv"], serde_json::Value::String("www2".into()));
}

#[test]
fn serialized_vault_secret_has_exactly_the_schema_fields() {
    let secret = Secret {
        version: "0.1.0".to_string(),
        provider: "ali".to_string(),
        content: SecretContent::Vault(VaultSecret {
            name: "xxx".to_string(),
            annotations: StringMap::new(),
        }),
    };
    let text = secret.to_json();
    let value: serde_json::Value = serde_json::from_str(&text).expect("valid JSON");
    let obj = value.as_object().expect("an object");

    let mut keys: Vec<&str> = obj.keys().map(|k| k.as_str()).collect();
    keys.sort();
    let mut expected = vec!["annotations", "name", "provider", "type", "version"];
    expected.sort();
    assert_eq!(keys, expected);
    assert_eq!(obj["type"], serde_json::Value::String("Vault".into()));
    assert_eq!(obj["name"], serde_json::Value::String("xxx".into()));
    assert_eq!(obj["annotations"], serde_json::Value::Object(serde_json::Map::new()));
}

#[test]
fn serializer_escapes_string_contents() {
    let mut annotations = StringMap::new();
    annotations.insert("k\"ey".to_string(), "va\\lue\nwith\tcontrol\u{1}".to_string());
    let secret = Secret {
        version: "0.1.0".to_string(),
        provider: "kbs".to_string(),
        content: SecretContent::Vault(VaultSecret {
            name: "a \"quoted\" name".to_string(),
            annotations,
        }),
    };
    let text = secret.to_json();
    let value: serde_json::Value = serde_json::from_str(&text).expect("valid JSON");
    assert_eq!(
        value["name"],
        serde_json::Value::String("a \"quoted\" name".into())
    );
    assert_eq!(
        value["annotations"]["k\"ey"],
        serde_json::Value::String("va\\lue\nwith\tcontrol\u{1}".into())
    );
}

#[test]
fn seal_type_parses_its_names() {
    assert_eq!(SealType::from_name("Envelope"), Some(SealType::Envelope));
    assert_eq!(SealType::from_name("Vault"), Some(SealType::Vault));
    assert_eq!(SealType::from_name("vault"), None);
}
