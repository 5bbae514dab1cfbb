//! The error taxonomy of the hub.
//!
//! Every fallible operation of the library reports one of these variants;
//! the contracts of the public functions say exactly which variant comes on
//! which input.

use vstd::prelude::*;

verus! {

/// Errors surfaced by the data hub's core.
#[derive(Debug, Clone)]
pub enum Error {
    /// Missing flag, malformed configuration, unknown provider name.
    Config(String),
    /// Malformed JSON, invalid base64, invalid resource URI, unsupported TEE tag.
    Parse(String),
    /// Evidence rejected by the KBS, or the evidence agent failed.
    Attestation(String),
    /// No attested session, or the session can no longer be used.
    Session(String),
    /// The JWE protected header names a key-wrap algorithm other than RSA1_5.
    AlgorithmMismatch,
    /// Symmetric decryption failed (wrong key length, bad IV, or AEAD tag mismatch).
    DecryptionFailed,
    /// RSA unwrap of a wrapped symmetric key failed.
    RsaUnwrapFailed,
    /// A schema constraint is broken (missing `iv`/`wrap_type`, bad tag).
    Schema(String),
    /// The KEK provider named in a packet does not match the selected driver.
    ProviderMismatch(String),
    /// KBS answered 401 after the one allowed re-handshake.
    Unauthorized,
    /// KBS answered 404 for a resource.
    ResourceNotFound,
    /// KBS answered with an unexpected status.
    ServerError(String),
    /// A KMS driver or another upstream collaborator failed.
    Upstream(String),
    /// Key-provider input names the unsupported `keywrap` operation.
    UnsupportedOp,
    /// Key-provider input has an empty operation.
    MissingOp,
    /// Key-provider input names an unknown operation.
    InvalidOp(String),
    /// Key-unwrap parameters carry no decrypt configuration.
    UnwrapParamsNoDc,
    /// Key-unwrap parameters carry no annotation.
    UnwrapParamsNoAnnotation,
    /// Key-wrap parameters must not carry an encryption configuration.
    WrapParamsExpectEmptyEc,
    /// Key-wrap parameters must not carry opts data.
    WrapParamsExpectEmptyOptsdata,
}

impl Error {
    /// A short human-readable label for the variant, for transport-level messages.
    pub fn label(&self) -> (r: &'static str) {
        match self {
            Error::Config(_) => "config error",
            Error::Parse(_) => "parse error",
            Error::Attestation(_) => "attestation error",
            Error::Session(_) => "session error",
            Error::AlgorithmMismatch => "algorithm mismatch for wrapped key",
            Error::DecryptionFailed => "decryption failed",
            Error::RsaUnwrapFailed => "rsa unwrap failed",
            Error::Schema(_) => "schema error",
            Error::ProviderMismatch(_) => "provider mismatch",
            Error::Unauthorized => "unauthorized request",
            Error::ResourceNotFound => "resource not found",
            Error::ServerError(_) => "server internal failure",
            Error::Upstream(_) => "upstream error",
            Error::UnsupportedOp => "unsupported operator",
            Error::MissingOp => "missing operator",
            Error::InvalidOp(_) => "invalid operator",
            Error::UnwrapParamsNoDc => "keyunwrap parameters must include Dc",
            Error::UnwrapParamsNoAnnotation => "keyunwrap parameters must include annotation",
            Error::WrapParamsExpectEmptyEc => "keywrap parameters should not include Ec",
            Error::WrapParamsExpectEmptyOptsdata => "keywrap parameters should not include optsdata",
        }
    }
}

} // verus!
