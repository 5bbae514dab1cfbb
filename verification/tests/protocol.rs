//! Tests of the TEE tags, the handshake steps and the response decryption.

use aes_gcm::aead::Aead;
use aes_gcm::KeyInit;
use base64::Engine;
use sha2::Digest;

use rsa::traits::PublicKeyParts;

use data_hub::error::Error;
use data_hub::kbs::{auth_url, attest_url, evidence_digest, resource_url, GetOutcome, Handshaker,
    Response};
use data_hub::tee::Tee;
use data_hub::uri::ResourceUri;

#[test]
fn parse_tee_type() {
    let cases = [
        ("\"sgx\"", Tee::Sgx),
        ("\"sev\"", Tee::Sev),
        ("\"tdx\"", Tee::Tdx),
        ("\"azsnpvtpm\"", Tee::AzSnpVtpm),
        ("\"snp\"", Tee::Snp),
        ("\"cca\"", Tee::Cca),
        ("\"sample\"", Tee::Sample),
    ];
    for (name, expected) in cases {
        let parsed = Tee::from_json_tag(name).expect("parse tee failed");
        assert_eq!(parsed, expected);
    }
    assert!(Tee::from_json_tag("\"riscv\"").is_none());
    assert!(Tee::from_json_tag("sgx").is_none());
}


/// A fixed 2048-bit RSA key, so tests need no slow key generation.
const TEST_N_HEX: &str = "a0d70798b36f0fc10299b17f583be615ce86b55359c63527cc789a640f3f31dcb9a17a07ef92b5593ca25210c85ea0f91a030e9f3e0cabdcd15f92068b1ee4a9022b7e3f5df1121d104c62a04f97fc994225317964d098f84e4fa85978fee7535ce24c0bdd519d030bf619666f62d848b6e8e16b56248a5878191711353da6404a9351c4fc12de873fa4f4844f16637b13d23a640741ca0bd79fbb863e414f4441e8684967365b64170a8dea0ea10ec858f140f696fc6595cf4ce3a72017b1fb6d16821157e032846cc4873f8545c24d78c9c771c7ca9398437470879ec000c50bdbc850b95006eb8f7ba21fb392681092b34d8de2617a47636c0532c748b069";
const TEST_D_HEX: &str = "864c45f98909d93bae322af54bf567df197d7d764565ad08b8409399ace97576fa410ca607b2965e16b4ea953cd956cbe89e58dd3a705628a1628d898d2c947d5264829be292e22f0666e18b3e2a882e67feaa5ad48520d5647e3af1ca87fd1bac59006a7fb81fc4657e6e230c2a9ab1cc9893708e93203952be90763be06829be2e8ebee32c1b0b90ff4e0ac129b345bfec04ef273eeb98af126639a5bd5d659f9813060b3eea2df9058029457e26c5c97d7e41d58903d4c51b3e7b2696a7e62b8d0b6d8cd93314b03e42002168a0c5967f9b5fb8426922ca7e38337a0b49ad03a471c8f7c76caa35f32f731ee301a72a545269b3345acf2885c96f6bb7c31";
const TEST_P_HEX: &str = "df54bb126a267a2f94e117c41b40ba23782401f39069b279e7d3d431d8a36f7ce23bc8f9073ddfe7d370c289842538b7a5e4d0e868c84b219f9befb5be2c95880b37df689448f9cc6d97efcd704383a3eb444bb0a27ef22f51bf60a329356ebcfbed52f07e0303903d40e82ac4ef716314021a64c5db825a0233dc7a13a60e59";
const TEST_Q_HEX: &str = "b85e24b61906620ad50d46e875157ab66b8d69b92733c575d61bb05527ac364fb5d6b1f124f497c1993e00b6d88991f37805c48e585e6810e92279cfeb47c643e451edf4e5478fc7c8be61b0ff453522f22995eb06cd6807edf82748e87b1b0b8231b49bed6a9d5885516d8380cf8db78d9706cd47c24796fc6d90c4a75d1091";

/// Build a handshake engine around the fixed key.
fn fixed_handshaker(tee: Tee) -> Handshaker {
    let n = rsa::BigUint::parse_bytes(TEST_N_HEX.as_bytes(), 16).unwrap();
    let e = rsa::BigUint::from(65537u32);
    let d = rsa::BigUint::parse_bytes(TEST_D_HEX.as_bytes(), 16).unwrap();
    let p = rsa::BigUint::parse_bytes(TEST_P_HEX.as_bytes(), 16).unwrap();
    let q = rsa::BigUint::parse_bytes(TEST_Q_HEX.as_bytes(), 16).unwrap();
    let private_key = rsa::RsaPrivateKey::from_components(n, e, d, vec![p, q]).unwrap();
    let public_key = rsa::RsaPublicKey::from(&private_key);
    let modulus_be = public_key.n().to_bytes_be();
    let exponent_be = public_key.e().to_bytes_be();
    let keypair = data_hub::rsakey::RSAKeyPair { private_key, public_key, modulus_be, exponent_be };
    Handshaker { tee, tee_key: data_hub::rsakey::TeeKeyPair { keypair }, kbs_host_url: None }
}

#[test]
fn auth_body_carries_the_tee_tag() {
    let h = fixed_handshaker(Tee::Sgx);
    let body = h.auth_request_body();
    assert_eq!(body, "{\"version\":\"0.1.0\",\"tee\":\"sgx\",\"extra_params\":\"\"}");
}

#[test]
fn urls_are_formed_under_the_host() {
    assert_eq!(auth_url("http://kbs.local"), "http://kbs.local/kbs/v0/auth");
    assert_eq!(attest_url("http://kbs.local"), "http://kbs.local/kbs/v0/attest");
    let uri = ResourceUri::try_from("kbs:///default/keys/k1").expect("uri");
    assert_eq!(
        resource_url("http://kbs.local", &uri),
        "http://kbs.local/kbs/v0/default/keys/k1"
    );
}

#[test]
fn evidence_digest_binds_nonce_and_materials() {
    let nonce = "the-nonce";
    let materials = vec!["mod-b64".to_string(), "exp-b64".to_string()];
    let digest = evidence_digest(nonce, &materials);

    let mut hasher = sha2::Sha384::new();
    hasher.update(nonce.as_bytes());
    hasher.update("mod-b64".as_bytes());
    hasher.update("exp-b64".as_bytes());
    let expected = base64::engine::general_purpose::STANDARD.encode(hasher.finalize());
    assert_eq!(digest, expected);
}

#[test]
fn attest_body_carries_pubkey_and_evidence() {
    let h = fixed_handshaker(Tee::Sample);
    let engine = base64::engine::general_purpose::STANDARD;
    let k_mod = engine.encode(&h.tee_key.keypair.modulus_be);
    let k_exp = engine.encode(&h.tee_key.keypair.exponent_be);

    let body = h.attest_request_body(b"evidence-blob");
    let evidence_b64 = engine.encode(b"evidence-blob");
    let expected_body = format!(
        "{{\"tee_pubkey\":{{\"alg\":\"RSA1_5\",\"k_mod\":\"{k_mod}\",\"k_exp\":\"{k_exp}\"}},\"tee_evidence\":\"{evidence_b64}\"}}"
    );
    assert_eq!(body, expected_body);
}

#[test]
fn attest_reply_drives_the_session_state() {
    let mut h = fixed_handshaker(Tee::Sample);
    let token = h
        .on_attest_reply("http://kbs.local".to_string(), 200, "{\"token\":\"tok-1\"}")
        .expect("attest");
    assert_eq!(token, "\"tok-1\"");
    assert!(h.kbs_host_url.is_some());

    let denied = h.on_attest_reply("http://kbs.local".to_string(), 401, "{\"type\":\"x\",\"detail\":\"no\"}");
    assert!(matches!(denied, Err(Error::Attestation(_))));
    assert!(h.kbs_host_url.is_none());

    let broken = h.on_attest_reply("http://kbs.local".to_string(), 500, "boom");
    assert!(matches!(broken, Err(Error::ServerError(_))));
    assert!(h.kbs_host_url.is_none());
}

/// Build a valid JWE-like response for the handshaker's current key.
fn wrap_response(h: &Handshaker, enc: &str, alg: &str, payload: &[u8]) -> Response {
    let n = rsa::BigUint::from_bytes_be(&h.tee_key.keypair.modulus_be);
    let e = rsa::BigUint::from_bytes_be(&h.tee_key.keypair.exponent_be);
    let pubkey = rsa::RsaPublicKey::new(n, e).expect("pubkey");

    let symkey: [u8; 32] = [7u8; 32];
    let iv: [u8; 12] = [9u8; 12];
    let cipher = aes_gcm::Aes256Gcm::new_from_slice(&symkey).expect("cipher");
    let ciphertext = cipher
        .encrypt(aes_gcm::Nonce::from_slice(&iv), payload)
        .expect("encrypt");

    let mut rng = rand::thread_rng();
    let wrapped_key = pubkey
        .encrypt(&mut rng, rsa::Pkcs1v15Encrypt, &symkey)
        .expect("wrap");

    let url = base64::engine::general_purpose::URL_SAFE_NO_PAD;
    Response {
        protected: format!("{{\"alg\":\"{alg}\",\"enc\":\"{enc}\"}}"),
        encrypted_key: url.encode(wrapped_key),
        iv: url.encode(iv),
        ciphertext: url.encode(ciphertext),
    }
}

#[test]
fn decrypt_response_inverts_the_wrapping() {
    let h = fixed_handshaker(Tee::Sample);
    let response = wrap_response(&h, "A256GCM", "RSA1_5", b"the payload");
    let plaintext = h.decrypt_response(&response).expect("decrypt");
    assert_eq!(plaintext, b"the payload");
}

#[test]
fn decrypt_response_rejects_oaep_alg() {
    let h = fixed_handshaker(Tee::Sample);
    let response = wrap_response(&h, "A256GCM", "RSA-OAEP", b"the payload");
    let r = h.decrypt_response(&response);
    assert!(matches!(r, Err(Error::AlgorithmMismatch)));
}

#[test]
fn decrypt_response_rejects_unknown_enc() {
    let h = fixed_handshaker(Tee::Sample);
    let response = wrap_response(&h, "A128GCM", "RSA1_5", b"the payload");
    let r = h.decrypt_response(&response);
    assert!(matches!(r, Err(Error::Parse(_))));
}

#[test]
fn decrypt_response_rejects_bad_base64url_fields() {
    let h = fixed_handshaker(Tee::Sample);
    let mut response = wrap_response(&h, "A256GCM", "RSA1_5", b"the payload");
    response.encrypted_key = "!not-base64url!".to_string();
    assert!(matches!(h.decrypt_response(&response), Err(Error::Parse(_))));

    let mut response = wrap_response(&h, "A256GCM", "RSA1_5", b"the payload");
    response.iv = "!not-base64url!".to_string();
    assert!(matches!(h.decrypt_response(&response), Err(Error::Parse(_))));
}

#[test]
fn get_reply_retries_once_on_401() {
    let h = fixed_handshaker(Tee::Sample);

    // First 401 with retry budget: exactly one re-handshake is asked for.
    assert!(matches!(h.on_get_reply(401, "", true), GetOutcome::Reauth));
    // Second 401, budget exhausted: unauthorized.
    assert!(matches!(
        h.on_get_reply(401, "", false),
        GetOutcome::Fail(Error::Unauthorized)
    ));
    // 404 is not retried.
    assert!(matches!(
        h.on_get_reply(404, "", true),
        GetOutcome::Fail(Error::ResourceNotFound)
    ));
    // Other failures surface the server's text.
    assert!(matches!(
        h.on_get_reply(500, "oops", true),
        GetOutcome::Fail(Error::ServerError(_))
    ));
}

#[test]
fn retry_then_success_delivers_the_payload() {
    let mut h = fixed_handshaker(Tee::Sample);

    // GET resource returns 401 with retry budget 1.
    assert!(matches!(h.on_get_reply(401, "", true), GetOutcome::Reauth));

    // The client re-runs the handshake against the same host.
    h.on_attest_reply("http://kbs.local".to_string(), 200, "{\"token\":\"t2\"}")
        .expect("attest");

    // The second attempt returns 200: the caller sees the decrypted payload.
    let response = wrap_response(&h, "A256GCM", "RSA1_5", b"resource-bytes");
    let body = format!(
        "{{\"protected\":{},\"encrypted_key\":\"{}\",\"iv\":\"{}\",\"ciphertext\":\"{}\"}}",
        serde_json::to_string(&response.protected).unwrap(),
        response.encrypted_key,
        response.iv,
        response.ciphertext
    );
    match h.on_get_reply(200, &body, false) {
        GetOutcome::Done(payload) => assert_eq!(payload, b"resource-bytes"),
        _ => panic!("expected the decrypted payload"),
    }
}

#[test]
fn session_resource_url_requires_a_handshake() {
    let mut h = fixed_handshaker(Tee::Sample);
    let uri = ResourceUri::try_from("kbs:///default/keys/k1").expect("uri");
    assert!(matches!(
        h.session_resource_url(&uri),
        Err(Error::Session(_))
    ));
    h.on_attest_reply("http://kbs.local".to_string(), 200, "{\"token\":\"t\"}")
        .expect("attest");
    assert_eq!(
        h.session_resource_url(&uri).expect("url"),
        "http://kbs.local/kbs/v0/default/keys/k1"
    );
}
