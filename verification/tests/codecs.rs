//! Tests of the resource URI grammar, the cipher labels, the padding
//! modes, the driver helper computations and the storage registry names.

use base64::Engine;

use data_hub::error::Error;
use data_hub::kms::{cli_decrypt_args, cli_encrypt_args, cli_parse_output, generate_annotation,
    KMSEnum, Kms, VaultEnum};
use data_hub::rsakey::PaddingMode;
use data_hub::smap::StringMap;
use data_hub::storage::Type;
use data_hub::symm::WrapType;
use data_hub::uri::ResourceUri;

#[test]
fn resource_uri_parses_the_full_form() {
    let u = ResourceUri::try_from("kbs:///default/keys/k1").expect("uri");
    assert_eq!(u.kbs_addr, "");
    assert_eq!(u.repository, "default");
    assert_eq!(u.resource_type, "keys");
    assert_eq!(u.tag, "k1");
    assert_eq!(u.resource_path(), "default/keys/k1");
    assert_eq!(u.whole_uri(), "kbs:///default/keys/k1");
}

#[test]
fn resource_uri_defaults_the_repository() {
    let u = ResourceUri::try_from("kbs:///keys/k1").expect("uri");
    assert_eq!(u.repository, "default");
    assert_eq!(u.resource_type, "keys");
    assert_eq!(u.tag, "k1");

    let with_host = ResourceUri::try_from("kbs://host.example/keys/k1").expect("uri");
    assert_eq!(with_host.kbs_addr, "host.example");
    assert_eq!(with_host.repository, "default");
}

#[test]
fn resource_uri_rejects_malformed_addresses() {
    for bad in [
        "",
        "kbs://",
        "kbs:///",
        "kbs:///only-one",
        "http:///default/keys/k1",
        "kbs:///default/keys/k1/extra",
        "kbs:///default//k1",
        "default/keys/k1",
    ] {
        assert!(
            matches!(ResourceUri::try_from(bad), Err(Error::Parse(_))),
            "{bad:?} must be refused"
        );
    }
}

#[test]
fn wrap_type_labels_round_trip() {
    assert_eq!(WrapType::from_alg("A256GCM"), Some(WrapType::Aes256Gcm));
    assert_eq!(WrapType::from_alg("A256CTR"), Some(WrapType::Aes256Ctr));
    assert_eq!(WrapType::from_alg("A128GCM"), None);
    assert_eq!(WrapType::Aes256Gcm.alg(), "A256GCM");
    assert_eq!(WrapType::Aes256Ctr.alg(), "A256CTR");

    assert_eq!(WrapType::from_name("Aes256Gcm"), Some(WrapType::Aes256Gcm));
    assert_eq!(WrapType::from_name("Aes256Ctr"), Some(WrapType::Aes256Ctr));
    assert_eq!(WrapType::from_name("A256GCM"), None);
    assert_eq!(WrapType::Aes256Gcm.name(), "Aes256Gcm");
}

#[test]
fn padding_mode_labels_are_verbatim() {
    assert_eq!(PaddingMode::OAEP.as_label(), "RSA-OAEP");
    assert_eq!(PaddingMode::PKCS1v15.as_label(), "RSA1_5");
    assert_eq!(PaddingMode::from_label("RSA-OAEP"), Some(PaddingMode::OAEP));
    assert_eq!(PaddingMode::from_label("RSA1_5"), Some(PaddingMode::PKCS1v15));
    assert_eq!(PaddingMode::from_label("RSA-OAEP-256"), None);
}

#[test]
fn provider_names_are_case_sensitive() {
    assert_eq!(KMSEnum::from_name("Ali"), Some(KMSEnum::Ali));
    assert_eq!(KMSEnum::from_name("ali"), None);
    assert_eq!(VaultEnum::from_name("Ali"), Some(VaultEnum::Ali));
    assert_eq!(Kms::from_name("Ali"), Some(Kms::Ali));
    assert_eq!(Kms::from_name("aws"), None);

    assert_eq!(Type::from_name("AliOSS"), Some(Type::AliOSS));
    assert_eq!(Type::from_name("alioss"), None);
    assert_eq!(Type::AliOSS.name(), "AliOSS");
}

#[test]
fn driver_helper_arguments_are_built_and_parsed() {
    let std = base64::engine::general_purpose::STANDARD;
    let mut annotations = StringMap::new();
    annotations.insert("iv".to_string(), std.encode([8u8; 12]));

    let args = cli_encrypt_args(b"plain", "key-1", &annotations).expect("args");
    assert_eq!(args.len(), 4);
    assert_eq!(args[0], "encrypt");
    assert_eq!(args[1], std.encode(b"plain"));
    assert_eq!(args[2], "key-1");
    assert_eq!(args[3], std.encode([8u8; 12]));

    let args = cli_decrypt_args(b"cipher", "key-1", &annotations).expect("args");
    assert_eq!(args[0], "decrypt");
    assert_eq!(args[1], std.encode(b"cipher"));

    let missing = cli_encrypt_args(b"plain", "key-1", &StringMap::new());
    assert!(matches!(missing, Err(Error::Schema(_))));

    let out = std.encode(b"result-bytes");
    assert_eq!(cli_parse_output(&out).expect("decode"), b"result-bytes");
    assert!(matches!(cli_parse_output("!!"), Err(Error::Parse(_))));
}

#[test]
fn generated_annotation_holds_a_fresh_iv() {
    let std = base64::engine::general_purpose::STANDARD;
    let map = generate_annotation();
    assert_eq!(map.len(), 1);
    let iv_b64 = map.get("iv").expect("iv entry");
    let iv = std.decode(iv_b64).expect("base64");
    assert_eq!(iv.len(), 12);
}

#[test]
fn string_map_keeps_insertion_order_and_replaces() {
    let mut m = StringMap::new();
    m.insert("a".to_string(), "1".to_string());
    m.insert("b".to_string(), "2".to_string());
    m.insert("a".to_string(), "3".to_string());
    assert_eq!(m.len(), 2);
    assert_eq!(m.get("a").map(|v| v.clone()), Some("3".to_string()));
    assert_eq!(m.get("b").map(|v| v.clone()), Some("2".to_string()));
    assert_eq!(m.get("c"), None);
    let (k0, _) = m.entry_at(0);
    assert_eq!(k0, "a");
}
