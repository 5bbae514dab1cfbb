//! The KBS handshake engine and resource client, as a verified state
//! machine.
//!
//! The protocol has two steps, `POST /kbs/v0/auth` and `POST /kbs/v0/attest`,
//! followed by authenticated `GET`s of resources.  The HTTP transport is no
//! part of this library: a driver performs each request and hands the status
//! and body to the step functions below, which build the request bodies,
//! bind the fresh key pair into the evidence digest, track whether the
//! session is authenticated, decrypt the JWE-like responses, and decide the
//! one allowed re-handshake after a 401.

use vstd::prelude::*;
use vstd::string::*;
use vstd::utf8::encode_utf8;
use crate::b64::{b64_encode, b64_std_of, b64_url_nopad_decode, b64_url_nopad_of};
use crate::error::Error;
use crate::hash::{sha384, sha384_of};
use crate::rsakey::{PaddingMode, TeeKeyPair};
use crate::symm::{decrypt, wipe, WrapType};
use crate::tee::Tee;
use crate::uri::ResourceUri;

verus! {

/// A KBS response in the JWE-like shape: a protected header naming the
/// algorithms, the wrapped symmetric key, the IV and the payload, the last
/// three base64url-nopad-encoded.
pub struct Response {
    pub protected: String,
    pub encrypted_key: String,
    pub iv: String,
    pub ciphertext: String,
}

/// The `nonce` field of a challenge body, where the body parses as a JSON
/// object holding one.
pub uninterp spec fn challenge_nonce_of(s: Seq<char>) -> Option<Seq<char>>;

/// The four fields of a JWE-like response body, where the body parses.
pub uninterp spec fn response_fields_of(s: Seq<char>) -> Option<
    (Seq<char>, Seq<char>, Seq<char>, Seq<char>),
>;

/// The `alg` and `enc` fields of a protected header, where it parses.
pub uninterp spec fn protected_fields_of(s: Seq<char>) -> Option<(Seq<char>, Seq<char>)>;

/// The JSON rendering of the `token` field of an attest reply body, where
/// the body is JSON at all (a missing field renders as `null`).
pub uninterp spec fn token_field_of(s: Seq<char>) -> Option<Seq<char>>;

/// Relies on `serde_json::from_str::<serde_json::Value>`: reads the
/// challenge body and picks its `nonce` string field.
#[verifier::external_body]
pub fn parse_challenge(s: &str) -> (r: Result<String, Error>)
    ensures
        r matches Ok(n) ==> challenge_nonce_of(s@) == Some(n@),
        r is Err ==> challenge_nonce_of(s@) is None,
        r matches Err(e) ==> e is Parse,
{
    let v: serde_json::Value = serde_json::from_str(s)
        .map_err(|e| Error::Parse(format!("challenge is not JSON: {e}")))?;
    match v.get("nonce").and_then(|n| n.as_str()) {
        Some(nonce) => Ok(nonce.to_string()),
        None => Err(Error::Parse("challenge has no nonce".to_string())),
    }
}

/// Relies on `serde_json::from_str::<serde_json::Value>`: reads a resource
/// body and picks its `protected`, `encrypted_key`, `iv` and `ciphertext`
/// string fields.
#[verifier::external_body]
pub fn parse_response(s: &str) -> (r: Result<Response, Error>)
    ensures
        r matches Ok(resp) ==> response_fields_of(s@) == Some(
            (resp.protected@, resp.encrypted_key@, resp.iv@, resp.ciphertext@),
        ),
        r is Err ==> response_fields_of(s@) is None,
        r matches Err(e) ==> e is Parse,
{
    let v: serde_json::Value = serde_json::from_str(s)
        .map_err(|e| Error::Parse(format!("response is not JSON: {e}")))?;
    let field = |name: &str| -> Result<String, Error> {
        match v.get(name).and_then(|f| f.as_str()) {
            Some(s) => Ok(s.to_string()),
            None => Err(Error::Parse(format!("response has no {name}"))),
        }
    };
    Ok(Response {
        protected: field("protected")?,
        encrypted_key: field("encrypted_key")?,
        iv: field("iv")?,
        ciphertext: field("ciphertext")?,
    })
}

/// Relies on `serde_json::from_str::<serde_json::Value>`: reads a protected
/// header and picks its `alg` and `enc` string fields.
#[verifier::external_body]
pub fn parse_protected(s: &str) -> (r: Result<(String, String), Error>)
    ensures
        r matches Ok(p) ==> protected_fields_of(s@) == Some((p.0@, p.1@)),
        r is Err ==> protected_fields_of(s@) is None,
        r matches Err(e) ==> e is Parse,
{
    let v: serde_json::Value = serde_json::from_str(s)
        .map_err(|e| Error::Parse(format!("protected header is not JSON: {e}")))?;
    let alg = v.get("alg").and_then(|f| f.as_str())
        .ok_or_else(|| Error::Parse("protected header has no alg".to_string()))?;
    let enc = v.get("enc").and_then(|f| f.as_str())
        .ok_or_else(|| Error::Parse("protected header has no enc".to_string()))?;
    Ok((alg.to_string(), enc.to_string()))
}

/// Relies on `serde_json::from_str::<serde_json::Value>` and
/// `serde_json::Value::to_string`: renders the `token` field of the attest
/// reply (the JSON rendering, `null` where the field is missing).
#[verifier::external_body]
pub fn parse_token(s: &str) -> (r: Result<String, Error>)
    ensures
        r matches Ok(t) ==> token_field_of(s@) == Some(t@),
        r is Err ==> token_field_of(s@) is None,
        r matches Err(e) ==> e is Parse,
{
    let v: serde_json::Value = serde_json::from_str(s)
        .map_err(|e| Error::Parse(format!("attest reply is not JSON: {e}")))?;
    Ok(v["token"].to_string())
}

/// The byte string whose digest binds the nonce and the key material:
/// the UTF-8 bytes of the nonce followed by those of each material in turn.
pub open spec fn digest_input_spec(nonce: Seq<char>, materials: Seq<Seq<char>>) -> Seq<u8>
    decreases materials.len(),
{
    if materials.len() == 0 {
        encode_utf8(nonce)
    } else {
        digest_input_spec(nonce, materials.drop_last()) + encode_utf8(materials.last())
    }
}

/// The evidence challenge digest: standard base64 of SHA-384 over the nonce
/// and the key material strings.
pub open spec fn evidence_digest_spec(nonce: Seq<char>, materials: Seq<Seq<char>>) -> Seq<char> {
    b64_std_of(sha384_of(digest_input_spec(nonce, materials)))
}

/// Compute the challenge digest handed to the evidence agent: for any nonce
/// and any key material, base64 of SHA-384 over their concatenated bytes.
pub fn evidence_digest(nonce: &str, materials: &Vec<String>) -> (r: String)
    ensures
        r@ == evidence_digest_spec(nonce@, materials@.map_values(|m: String| m@)),
{
    let ghost mats = materials@.map_values(|m: String| m@);
    let mut input: Vec<u8> = Vec::new();
    input.extend_from_slice(nonce.as_bytes());
    assert(input@ =~= digest_input_spec(nonce@, mats.take(0)));
    let mut i: usize = 0;
    while i < materials.len()
        invariant
            0 <= i <= materials@.len(),
            mats == materials@.map_values(|m: String| m@),
            input@ == digest_input_spec(nonce@, mats.take(i as int)),
        decreases materials@.len() - i,
    {
        input.extend_from_slice(materials[i].as_str().as_bytes());
        proof {
            assert(mats.take(i + 1).drop_last() =~= mats.take(i as int));
            assert(mats.take(i + 1).last() == mats[i as int]);
        }
        i += 1;
    }
    proof {
        assert(mats.take(mats.len() as int) =~= mats);
    }
    let digest = sha384(input.as_slice());
    b64_encode(digest.as_slice())
}

/// The auth request body for a platform: version, lowercase TEE tag, empty
/// extra parameters.
pub open spec fn auth_body_spec(tee: Tee) -> Seq<char> {
    "{\"version\":\"0.1.0\",\"tee\":\""@ + tee.tag_spec() + "\",\"extra_params\":\"\"}"@
}

/// The attest request body: the public key components and the base64
/// evidence blob.
pub open spec fn attest_body_spec(k_mod: Seq<char>, k_exp: Seq<char>, evidence_b64: Seq<char>) -> Seq<char> {
    "{\"tee_pubkey\":{\"alg\":\"RSA1_5\",\"k_mod\":\""@ + k_mod + "\",\"k_exp\":\""@ + k_exp
        + "\"},\"tee_evidence\":\""@ + evidence_b64 + "\"}"@
}

/// The URL of the auth endpoint under a KBS host.
pub fn auth_url(kbs_host_url: &str) -> (r: String)
    ensures
        r@ == kbs_host_url@ + "/kbs/v0/auth"@,
{
    let mut out = kbs_host_url.to_owned();
    out.append("/kbs/v0/auth");
    out
}

/// The URL of the attest endpoint under a KBS host.
pub fn attest_url(kbs_host_url: &str) -> (r: String)
    ensures
        r@ == kbs_host_url@ + "/kbs/v0/attest"@,
{
    let mut out = kbs_host_url.to_owned();
    out.append("/kbs/v0/attest");
    out
}

/// The URL under which a KBS host serves a resource.
pub fn resource_url(kbs_host_url: &str, uri: &ResourceUri) -> (r: String)
    ensures
        r@ == kbs_host_url@ + "/kbs/v0/"@ + uri.repository@ + "/"@ + uri.resource_type@ + "/"@
            + uri.tag@,
{
    let mut out = kbs_host_url.to_owned();
    out.append("/kbs/v0/");
    let path = uri.resource_path();
    out.append(path.as_str());
    out
}

/// What the resource client does with one GET reply.
pub enum GetOutcome {
    /// 200 and the response decrypted: the plaintext payload.
    Done(Vec<u8>),
    /// 401 with retry budget left: run the handshake once more, then retry.
    Reauth,
    /// The request failed for good.
    Fail(Error),
}

/// The handshake engine.  It owns the session key pair, knows the platform
/// kind, and remembers the host against which it last attested; the
/// transport around it performs the HTTP requests.
pub struct Handshaker {
    /// The TEE kind of this platform.
    pub tee: Tee,
    /// The session key pair; replaced by a fresh one at each handshake.
    pub tee_key: TeeKeyPair,
    /// The KBS host of the authenticated session, once attestation passed.
    pub kbs_host_url: Option<String>,
}

impl Handshaker {
    /// A new, unauthenticated engine with a freshly generated key pair.
    pub fn new(tee: Tee) -> (r: Result<Handshaker, Error>)
        ensures
            r matches Ok(h) ==> h.tee == tee && h.kbs_host_url is None,
    {
        let tee_key = TeeKeyPair::new()?;
        Ok(Handshaker { tee, tee_key, kbs_host_url: None })
    }

    /// The auth request body for this platform.
    pub fn auth_request_body(&self) -> (r: String)
        ensures
            r@ == auth_body_spec(self.tee),
    {
        let mut out = String::from_str("{\"version\":\"0.1.0\",\"tee\":\"");
        out.append(self.tee.tag());
        out.append("\",\"extra_params\":\"\"}");
        out
    }

    /// Answer the server's challenge: generate a fresh session key pair and
    /// compute the evidence challenge digest binding the nonce to it.
    pub fn begin_attest(&mut self, nonce: &str) -> (r: Result<String, Error>)
        ensures
            final(self).tee == old(self).tee,
            final(self).kbs_host_url == old(self).kbs_host_url,
            r matches Ok(d) ==> d@ == evidence_digest_spec(
                nonce@,
                seq![
                    b64_std_of(final(self).tee_key.keypair.modulus_be@),
                    b64_std_of(final(self).tee_key.keypair.exponent_be@),
                ],
            ),
            r is Err ==> final(self).tee_key == old(self).tee_key,
    {
        let fresh = match TeeKeyPair::new() {
            Ok(k) => k,
            Err(e) => {
                return Err(e);
            },
        };
        self.tee_key = fresh;
        let pubkey = self.tee_key.export_pubkey();
        let mut materials: Vec<String> = Vec::new();
        materials.push(pubkey.k_mod);
        materials.push(pubkey.k_exp);
        let digest = evidence_digest(nonce, &materials);
        proof {
            assert(materials@.map_values(|m: String| m@) =~= seq![
                b64_std_of(self.tee_key.keypair.modulus_be@),
                b64_std_of(self.tee_key.keypair.exponent_be@),
            ]);
        }
        Ok(digest)
    }

    /// The attest request body carrying the session public key and the
    /// base64-encoded evidence blob.
    pub fn attest_request_body(&self, tee_evidence: &[u8]) -> (r: String)
        ensures
            r@ == attest_body_spec(
                b64_std_of(self.tee_key.keypair.modulus_be@),
                b64_std_of(self.tee_key.keypair.exponent_be@),
                b64_std_of(tee_evidence@),
            ),
    {
        let pubkey = self.tee_key.export_pubkey();
        let evidence_b64 = b64_encode(tee_evidence);
        let mut out = String::from_str("{\"tee_pubkey\":{\"alg\":\"RSA1_5\",\"k_mod\":\"");
        out.append(pubkey.k_mod.as_str());
        out.append("\",\"k_exp\":\"");
        out.append(pubkey.k_exp.as_str());
        out.append("\"},\"tee_evidence\":\"");
        out.append(evidence_b64.as_str());
        out.append("\"}");
        out
    }

    /// Digest the attest reply.  On 200 the session is authenticated against
    /// `kbs_host_url` and the token is returned; on 401 the evidence was
    /// rejected; any failure leaves the engine unauthenticated.
    pub fn on_attest_reply(&mut self, kbs_host_url: String, status: u16, body: &str) -> (r: Result<
        String,
        Error,
    >)
        ensures
            final(self).tee == old(self).tee,
            final(self).tee_key == old(self).tee_key,
            status == 200 ==> (token_field_of(body@) matches Some(t) ==> (r matches Ok(tok)
                && tok@ == t && (final(self).kbs_host_url matches Some(h) && h@
                == kbs_host_url@))),
            status == 200 && token_field_of(body@) is None ==> (r matches Err(e) && e is Parse
                && final(self).kbs_host_url is None),
            status == 401 ==> (r matches Err(e) && e is Attestation && final(self).kbs_host_url
                is None),
            status != 200 && status != 401 ==> (r matches Err(e) && e is ServerError
                && final(self).kbs_host_url is None),
    {
        if status == 200 {
            match parse_token(body) {
                Ok(token) => {
                    self.kbs_host_url = Some(kbs_host_url);
                    Ok(token)
                },
                Err(e) => {
                    self.kbs_host_url = None;
                    Err(e)
                },
            }
        } else if status == 401 {
            self.kbs_host_url = None;
            let mut msg = String::from_str("KBS attest unauthorized, Error Info: ");
            msg.append(body);
            Err(Error::Attestation(msg))
        } else {
            self.kbs_host_url = None;
            let mut msg = String::from_str("KBS Server Internal Failed, Response: ");
            msg.append(body);
            Err(Error::ServerError(msg))
        }
    }

    /// Decrypt a JWE-like response with the session key.
    ///
    /// The protected header must parse, its `enc` must name a supported
    /// cipher, and its `alg` must be exactly `RSA1_5`; any other `alg` is an
    /// `AlgorithmMismatch`.  The wrapped symmetric key is unwrapped with
    /// PKCS#1 v1.5 and zeroised after use.
    pub fn decrypt_response(&self, response: &Response) -> (r: Result<Vec<u8>, Error>)
        ensures
            protected_fields_of(response.protected@) is None ==> (r matches Err(e) && e is Parse),
            protected_fields_of(response.protected@) matches Some((alg, enc)) && (forall|
                wt: WrapType,
            | enc != #[trigger] wt.alg_spec()) ==> (r matches Err(e) && e is Parse),
            protected_fields_of(response.protected@) matches Some((alg, enc)) && (exists|
                wt: WrapType,
            | enc == #[trigger] wt.alg_spec()) && alg != PaddingMode::PKCS1v15.label_spec() ==> (
            r matches Err(e) && e is AlgorithmMismatch),
            r is Ok ==> (protected_fields_of(response.protected@) matches Some((alg, enc))
                && alg == PaddingMode::PKCS1v15.label_spec()),
            protected_fields_of(response.protected@) matches Some((alg, enc)) && (exists|
                wt: WrapType,
            | enc == #[trigger] wt.alg_spec()) && alg == PaddingMode::PKCS1v15.label_spec() && (
            forall|b: Seq<u8>| response.encrypted_key@ != #[trigger] b64_url_nopad_of(b)) ==> (
            r matches Err(e) && e is Parse),
            protected_fields_of(response.protected@) matches Some((alg, enc)) && (exists|
                wt: WrapType,
            | enc == #[trigger] wt.alg_spec()) && alg == PaddingMode::PKCS1v15.label_spec() && (
            forall|b: Seq<u8>| response.iv@ != #[trigger] b64_url_nopad_of(b)) ==> (
            r matches Err(e) && (e is Parse || e is RsaUnwrapFailed)),
            protected_fields_of(response.protected@) matches Some((alg, enc)) && (exists|
                wt: WrapType,
            | enc == #[trigger] wt.alg_spec()) && alg == PaddingMode::PKCS1v15.label_spec() && (
            forall|b: Seq<u8>| response.ciphertext@ != #[trigger] b64_url_nopad_of(b)) ==> (
            r matches Err(e) && (e is Parse || e is RsaUnwrapFailed)),
    {
        let (alg, enc) = parse_protected(response.protected.as_str())?;
        let wrap_type = match WrapType::from_alg(enc.as_str()) {
            Some(wt) => wt,
            None => {
                return Err(Error::Parse(String::from_str(
                    "protected header names an unsupported enc",
                )));
            },
        };
        if !crate::strutil::str_eq(alg.as_str(), PaddingMode::PKCS1v15.as_label()) {
            return Err(Error::AlgorithmMismatch);
        }
        let wrapped_symkey = b64_url_nopad_decode(response.encrypted_key.as_str())?;
        let mut symkey = self.tee_key.decrypt(PaddingMode::PKCS1v15, wrapped_symkey)?;
        let iv = match b64_url_nopad_decode(response.iv.as_str()) {
            Ok(v) => v,
            Err(e) => {
                wipe(&mut symkey);
                return Err(e);
            },
        };
        let ciphertext = match b64_url_nopad_decode(response.ciphertext.as_str()) {
            Ok(v) => v,
            Err(e) => {
                wipe(&mut symkey);
                return Err(e);
            },
        };
        let plaintext = decrypt(symkey.as_slice(), ciphertext.as_slice(), iv.as_slice(), wrap_type);
        wipe(&mut symkey);
        plaintext
    }

    /// Digest one GET reply for a resource.
    ///
    /// A 401 triggers exactly one re-handshake: with retry budget left the
    /// outcome is `Reauth`; without, `Unauthorized`.  A 404 is
    /// `ResourceNotFound`; other failures surface the server's text.
    pub fn on_get_reply(&self, status: u16, body: &str, retry: bool) -> (r: GetOutcome)
        ensures
            r is Done ==> status == 200 && response_fields_of(body@) is Some,
            status == 401 && retry ==> r is Reauth,
            status == 401 && !retry ==> (r matches GetOutcome::Fail(e) && e is Unauthorized),
            status == 404 ==> (r matches GetOutcome::Fail(e) && e is ResourceNotFound),
            status == 200 ==> !(r is Reauth),
            status == 200 && response_fields_of(body@) is None ==> (r matches GetOutcome::Fail(e)
                && e is Parse),
            status != 200 && status != 401 && status != 404 ==> (r matches GetOutcome::Fail(e)
                && e is ServerError),
    {
        if status == 200 {
            match parse_response(body) {
                Ok(response) => match self.decrypt_response(&response) {
                    Ok(payload) => GetOutcome::Done(payload),
                    Err(e) => GetOutcome::Fail(e),
                },
                Err(e) => GetOutcome::Fail(e),
            }
        } else if status == 401 {
            if retry {
                GetOutcome::Reauth
            } else {
                GetOutcome::Fail(Error::Unauthorized)
            }
        } else if status == 404 {
            GetOutcome::Fail(Error::ResourceNotFound)
        } else {
            let mut msg = String::from_str("KBS Server Internal Failed, Response: ");
            msg.append(body);
            GetOutcome::Fail(Error::ServerError(msg))
        }
    }

    /// The URL for a resource under the attested host; an error while no
    /// handshake has succeeded.
    pub fn session_resource_url(&self, uri: &ResourceUri) -> (r: Result<String, Error>)
        ensures
            self.kbs_host_url matches Some(h) ==> (r matches Ok(u) && u@ == h@ + "/kbs/v0/"@
                + uri.repository@ + "/"@ + uri.resource_type@ + "/"@ + uri.tag@),
            self.kbs_host_url is None ==> (r matches Err(e) && e is Session),
    {
        match &self.kbs_host_url {
            Some(host) => Ok(resource_url(host.as_str(), uri)),
            None => Err(Error::Session(String::from_str("handshake not called before"))),
        }
    }
}

} // verus!
