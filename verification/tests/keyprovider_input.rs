//! Tests of the key-provider request validation and the reply emission.

use base64::Engine;

use data_hub::error::Error;
use data_hub::keyprovider::{Dc, Ec, KeyProviderInput, KeyUnwrapOutput, KeyUnwrapParams,
    KeyUnwrapResults, KeyWrapParams};
use data_hub::smap::ParamsMap;

fn filled_dc() -> Dc {
    let mut parameters = ParamsMap::new();
    parameters.push(
        "attestation-agent".to_string(),
        vec![base64::engine::general_purpose::STANDARD.encode("kbc-name::kbs-uri")],
    );
    Dc { parameters }
}

#[test]
fn test_key_wrap_params_valid() {
    // Absent or empty parts are fine.
    assert!(KeyWrapParams::default().valid().is_ok());
    assert!(KeyWrapParams::default()
        .with_ec(Ec::default())
        .with_opts_data(String::new())
        .valid()
        .is_ok());
    assert!(KeyWrapParams::default().with_ec(Ec::default()).valid().is_ok());
    assert!(KeyWrapParams::default().with_opts_data(String::new()).valid().is_ok());

    // Non-empty opts data is refused.
    assert!(matches!(
        KeyWrapParams::default().with_opts_data("foo".to_string()).valid(),
        Err(Error::WrapParamsExpectEmptyOptsdata)
    ));
    assert!(matches!(
        KeyWrapParams::default()
            .with_ec(Ec::default())
            .with_opts_data("foo".to_string())
            .valid(),
        Err(Error::WrapParamsExpectEmptyOptsdata)
    ));

    // A non-empty encryption configuration is refused.
    let mut parameters = ParamsMap::new();
    parameters.push("k".to_string(), vec!["v".to_string()]);
    let ec = Ec { parameters, decrypt_config: Dc::default() };
    assert!(matches!(
        KeyWrapParams::default().with_ec(ec).valid(),
        Err(Error::WrapParamsExpectEmptyEc)
    ));
}

#[test]
fn test_key_unwrap_params_valid() {
    // No decrypt configuration: refused, whatever the annotation.
    assert!(matches!(
        KeyUnwrapParams::default().valid(),
        Err(Error::UnwrapParamsNoDc)
    ));
    assert!(matches!(
        KeyUnwrapParams::default().with_dc(Dc::default()).valid(),
        Err(Error::UnwrapParamsNoDc)
    ));
    assert!(matches!(
        KeyUnwrapParams::default().with_base64_annotation(String::new()).valid(),
        Err(Error::UnwrapParamsNoDc)
    ));

    // A decrypt configuration without an annotation: refused.
    assert!(matches!(
        KeyUnwrapParams::default().with_dc(filled_dc()).valid(),
        Err(Error::UnwrapParamsNoAnnotation)
    ));
    assert!(matches!(
        KeyUnwrapParams::default()
            .with_dc(filled_dc())
            .with_base64_annotation(String::new())
            .valid(),
        Err(Error::UnwrapParamsNoAnnotation)
    ));

    // Both present: accepted.
    assert!(KeyUnwrapParams::default()
        .with_dc(filled_dc())
        .with_base64_annotation("foo".to_string())
        .valid()
        .is_ok());
}

#[test]
fn test_key_provider_input() {
    // An empty operation is missing.
    let r = KeyProviderInput::default().valid();
    assert!(matches!(r, Err(Error::MissingOp)));

    // An unknown operation is invalid.
    let r = KeyProviderInput::default().with_op("invalid".to_string()).valid();
    assert!(matches!(r, Err(Error::InvalidOp(_))));

    // `keywrap` is not served.
    let r = KeyProviderInput::default().with_op("keywrap".to_string()).valid();
    assert!(matches!(r, Err(Error::UnsupportedOp)));

    // `keyunwrap` without unwrap parameters is refused.
    let r = KeyProviderInput::default().with_op("keyunwrap".to_string()).valid();
    assert!(matches!(r, Err(Error::UnwrapParamsNoDc)));

    // The full, well-formed request is accepted.
    let input = KeyProviderInput::default()
        .with_op("keyunwrap".to_string())
        .with_key_wrap_params(KeyWrapParams::default())
        .with_key_unwrap_params(
            KeyUnwrapParams::default()
                .with_dc(filled_dc())
                .with_base64_annotation("annotation".to_string()),
        );
    assert!(input.valid().is_ok());
}

#[test]
fn with_annotation_encodes_for_the_wire() {
    let std = base64::engine::general_purpose::STANDARD;
    let params = KeyUnwrapParams::default().with_annotation("plain packet".to_string());
    assert_eq!(params.annotation, Some(std.encode("plain packet")));
    // Encoding an empty annotation still leaves it empty, hence refused.
    let empty = KeyUnwrapParams::default()
        .with_dc(filled_dc())
        .with_annotation(String::new());
    assert!(matches!(empty.valid(), Err(Error::UnwrapParamsNoAnnotation)));
}

#[test]
fn get_annotation_decodes_the_packet() {
    let std = base64::engine::general_purpose::STANDARD;
    let input = KeyProviderInput::default()
        .with_op("keyunwrap".to_string())
        .with_key_unwrap_params(
            KeyUnwrapParams::default()
                .with_dc(filled_dc())
                .with_base64_annotation(std.encode(b"the annotation packet")),
        );
    assert_eq!(
        input.get_annotation().expect("annotation"),
        b"the annotation packet"
    );

    let invalid = KeyProviderInput::default().with_op("keywrap".to_string());
    assert!(matches!(invalid.get_annotation(), Err(Error::UnsupportedOp)));
}

#[test]
fn unwrap_output_serialises_the_bytes() {
    let output = KeyUnwrapOutput {
        keyunwrapresults: KeyUnwrapResults { optsdata: vec![0u8, 10, 99, 255] },
    };
    assert_eq!(
        output.to_json(),
        "{\"keyunwrapresults\":{\"optsdata\":[0,10,99,255]}}"
    );
    let empty = KeyUnwrapOutput { keyunwrapresults: KeyUnwrapResults { optsdata: vec![] } };
    assert_eq!(empty.to_json(), "{\"keyunwrapresults\":{\"optsdata\":[]}}");
}
