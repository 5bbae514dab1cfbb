//! The key-provider protocol records and their validation.
//!
//! The image runtime hands the hub a key-provider input naming an operation
//! and its parameters.  Only `keyunwrap` is served: the wrap parameters
//! must be empty and the unwrap parameters must carry a decrypt
//! configuration and an annotation.  The contracts state exactly which
//! error comes on which input.

use vstd::prelude::*;
use vstd::string::*;
use vstd::utf8::encode_utf8;
use crate::b64::{b64_decode, b64_std_of};
use crate::error::Error;
use crate::jsontext::hex_digit_spec;
use crate::smap::ParamsMap;
use crate::strutil::{str_eq, string_push};

verus! {

/// The operation served by the hub.
pub open spec fn op_key_unwrap_spec() -> Seq<char> {
    "keyunwrap"@
}

/// The operation the hub refuses.
pub open spec fn op_key_wrap_spec() -> Seq<char> {
    "keywrap"@
}

/// An encryption configuration; the hub expects it to stay empty.
#[derive(Debug, Clone)]
pub struct Ec {
    /// Named parameter lists.
    pub parameters: ParamsMap,
    /// The decrypt configuration bundled along.
    pub decrypt_config: Dc,
}

impl Ec {
    /// No parameters in either map.
    pub open spec fn empty_spec(self) -> bool {
        self.parameters.entries_spec().len() == 0 && self.decrypt_config.empty_spec()
    }

    /// Is this configuration empty?
    pub fn empty(self) -> (r: bool)
        ensures
            r == self.empty_spec(),
    {
        self.parameters.is_empty() && self.decrypt_config.empty()
    }
}

/// A decrypt configuration: named parameter lists, values base64-encoded.
#[derive(Debug, Clone)]
pub struct Dc {
    /// Named parameter lists.
    pub parameters: ParamsMap,
}

impl Dc {
    /// No parameters.
    pub open spec fn empty_spec(self) -> bool {
        self.parameters.entries_spec().len() == 0
    }

    /// Is this configuration empty?
    pub fn empty(self) -> (r: bool)
        ensures
            r == self.empty_spec(),
    {
        self.parameters.is_empty()
    }
}

/// Parameters of a `keywrap` request; the hub expects them empty.
#[derive(Debug, Clone)]
pub struct KeyWrapParams {
    /// The encryption configuration, if any.
    pub ec: Option<Ec>,
    /// The data to wrap, if any.
    pub optsdata: Option<String>,
}

impl KeyWrapParams {
    /// The encryption configuration is absent or empty.
    pub open spec fn ec_empty_spec(self) -> bool {
        match self.ec {
            None => true,
            Some(ec) => ec.empty_spec(),
        }
    }

    /// The opts data is absent or empty.
    pub open spec fn optsdata_empty_spec(self) -> bool {
        match self.optsdata {
            None => true,
            Some(s) => s@.len() == 0,
        }
    }

    /// Check that the wrap parameters are empty, as the hub expects.
    pub fn valid(&self) -> (r: Result<(), Error>)
        ensures
            !self.ec_empty_spec() ==> (r matches Err(e) && e is WrapParamsExpectEmptyEc),
            self.ec_empty_spec() && !self.optsdata_empty_spec() ==> (r matches Err(e)
                && e is WrapParamsExpectEmptyOptsdata),
            self.ec_empty_spec() && self.optsdata_empty_spec() ==> r is Ok,
    {
        let ec_empty = match &self.ec {
            Some(ec) => ec.parameters.is_empty() && ec.decrypt_config.parameters.is_empty(),
            None => true,
        };
        if !ec_empty {
            return Err(Error::WrapParamsExpectEmptyEc);
        }
        let optsdata_empty = match &self.optsdata {
            Some(optsdata) => optsdata.as_str().unicode_len() == 0,
            None => true,
        };
        if !optsdata_empty {
            return Err(Error::WrapParamsExpectEmptyOptsdata);
        }
        Ok(())
    }

    /// The same parameters with the encryption configuration set.
    pub fn with_ec(self, ec: Ec) -> (r: KeyWrapParams)
        ensures
            r.ec matches Some(e) && e == ec,
            r.optsdata == self.optsdata,
    {
        KeyWrapParams { ec: Some(ec), ..self }
    }

    /// The same parameters with the opts data set.
    pub fn with_opts_data(self, data: String) -> (r: KeyWrapParams)
        ensures
            r.optsdata matches Some(d) && d == data,
            r.ec == self.ec,
    {
        KeyWrapParams { optsdata: Some(data), ..self }
    }
}

/// Parameters of a `keyunwrap` request.
#[derive(Debug, Clone)]
pub struct KeyUnwrapParams {
    /// The decrypt configuration.
    pub dc: Option<Dc>,
    /// The annotation packet, base64-encoded.
    pub annotation: Option<String>,
}

impl KeyUnwrapParams {
    /// The decrypt configuration is absent or empty.
    pub open spec fn dc_empty_spec(self) -> bool {
        match self.dc {
            None => true,
            Some(dc) => dc.empty_spec(),
        }
    }

    /// The annotation is absent or empty.
    pub open spec fn annotation_empty_spec(self) -> bool {
        match self.annotation {
            None => true,
            Some(s) => s@.len() == 0,
        }
    }

    /// Check that the unwrap parameters carry a decrypt configuration and
    /// an annotation.
    pub fn valid(&self) -> (r: Result<(), Error>)
        ensures
            self.dc_empty_spec() ==> (r matches Err(e) && e is UnwrapParamsNoDc),
            !self.dc_empty_spec() && self.annotation_empty_spec() ==> (r matches Err(e)
                && e is UnwrapParamsNoAnnotation),
            !self.dc_empty_spec() && !self.annotation_empty_spec() ==> r is Ok,
    {
        let dc_empty = match &self.dc {
            Some(dc) => dc.parameters.is_empty(),
            None => true,
        };
        if dc_empty {
            return Err(Error::UnwrapParamsNoDc);
        }
        let annotation_empty = match &self.annotation {
            Some(annotation) => annotation.as_str().unicode_len() == 0,
            None => true,
        };
        if annotation_empty {
            return Err(Error::UnwrapParamsNoAnnotation);
        }
        Ok(())
    }

    /// The same parameters with the decrypt configuration set.
    pub fn with_dc(self, dc: Dc) -> (r: KeyUnwrapParams)
        ensures
            r.dc matches Some(d) && d == dc,
            r.annotation == self.annotation,
    {
        KeyUnwrapParams { dc: Some(dc), ..self }
    }

    /// The same parameters with the base64 annotation set.
    pub fn with_base64_annotation(self, base64_annotation: String) -> (r: KeyUnwrapParams)
        ensures
            r.annotation matches Some(a) && a == base64_annotation,
            r.dc == self.dc,
    {
        KeyUnwrapParams { annotation: Some(base64_annotation), ..self }
    }

    /// The same parameters with a plain annotation, base64-encoded here.
    pub fn with_annotation(self, annotation: String) -> (r: KeyUnwrapParams)
        ensures
            r.annotation matches Some(a) && a@ == b64_std_of(encode_utf8(annotation@)),
            r.dc == self.dc,
    {
        let encoded = crate::b64::b64_encode(annotation.as_str().as_bytes());
        KeyUnwrapParams { annotation: Some(encoded), ..self }
    }
}

/// A key-provider request: the operation and both parameter sets.
#[derive(Debug, Clone)]
pub struct KeyProviderInput {
    /// `keywrap` or `keyunwrap`; only the latter is served.
    pub op: String,
    /// Must be empty.
    pub keywrapparams: KeyWrapParams,
    /// Must name the wrapped key.
    pub keyunwrapparams: KeyUnwrapParams,
}

impl KeyProviderInput {
    /// The operation named by the request.
    pub open spec fn op_spec(self) -> Seq<char> {
        self.op@
    }

    /// All the validity conditions together.
    pub open spec fn valid_spec(self) -> bool {
        &&& self.op_spec() == op_key_unwrap_spec()
        &&& self.keywrapparams.ec_empty_spec()
        &&& self.keywrapparams.optsdata_empty_spec()
        &&& !self.keyunwrapparams.dc_empty_spec()
        &&& !self.keyunwrapparams.annotation_empty_spec()
    }

    /// Check the whole request: the operation must be `keyunwrap`, the wrap
    /// parameters empty, the unwrap parameters filled.
    pub fn valid(&self) -> (r: Result<(), Error>)
        ensures
            self.op_spec() == op_key_wrap_spec() ==> (r matches Err(e) && e is UnsupportedOp),
            self.op_spec() == ""@ ==> (r matches Err(e) && e is MissingOp),
            self.op_spec() != op_key_wrap_spec() && self.op_spec() != op_key_unwrap_spec()
                && self.op_spec() != ""@ ==> (r matches Err(e) && e is InvalidOp),
            self.op_spec() == op_key_unwrap_spec() && !self.keywrapparams.ec_empty_spec() ==> (
            r matches Err(e) && e is WrapParamsExpectEmptyEc),
            self.op_spec() == op_key_unwrap_spec() && self.keywrapparams.ec_empty_spec()
                && !self.keywrapparams.optsdata_empty_spec() ==> (r matches Err(e)
                && e is WrapParamsExpectEmptyOptsdata),
            self.op_spec() == op_key_unwrap_spec() && self.keywrapparams.ec_empty_spec()
                && self.keywrapparams.optsdata_empty_spec()
                && self.keyunwrapparams.dc_empty_spec() ==> (r matches Err(e)
                && e is UnwrapParamsNoDc),
            self.op_spec() == op_key_unwrap_spec() && self.keywrapparams.ec_empty_spec()
                && self.keywrapparams.optsdata_empty_spec()
                && !self.keyunwrapparams.dc_empty_spec()
                && self.keyunwrapparams.annotation_empty_spec() ==> (r matches Err(e)
                && e is UnwrapParamsNoAnnotation),
            r is Ok <==> self.valid_spec(),
    {
        proof {
            reveal_strlit("keywrap");
            reveal_strlit("keyunwrap");
            reveal_strlit("");
            assert(""@.len() == 0);
            assert("keywrap"@.len() == 7);
            assert("keyunwrap"@.len() == 9);
        }
        if str_eq(self.op.as_str(), "keywrap") {
            return Err(Error::UnsupportedOp);
        }
        if self.op.as_str().unicode_len() == 0 {
            proof {
                assert(self.op@ =~= ""@);
            }
            return Err(Error::MissingOp);
        }
        if !str_eq(self.op.as_str(), "keyunwrap") {
            return Err(Error::InvalidOp(self.op.clone()));
        }
        self.keywrapparams.valid()?;
        self.keyunwrapparams.valid()?;
        Ok(())
    }

    /// The same request with the operation set.
    pub fn with_op(self, op: String) -> (r: KeyProviderInput)
        ensures
            r.op_spec() == op@,
            r.keywrapparams == self.keywrapparams,
            r.keyunwrapparams == self.keyunwrapparams,
    {
        KeyProviderInput { op, ..self }
    }

    /// The same request with the wrap parameters set.
    pub fn with_key_wrap_params(self, params: KeyWrapParams) -> (r: KeyProviderInput)
        ensures
            r.keywrapparams == params,
            r.op_spec() == self.op_spec(),
            r.keyunwrapparams == self.keyunwrapparams,
    {
        KeyProviderInput { keywrapparams: params, ..self }
    }

    /// The same request with the unwrap parameters set.
    pub fn with_key_unwrap_params(self, params: KeyUnwrapParams) -> (r: KeyProviderInput)
        ensures
            r.keyunwrapparams == params,
            r.op_spec() == self.op_spec(),
            r.keywrapparams == self.keywrapparams,
    {
        KeyProviderInput { keyunwrapparams: params, ..self }
    }

    /// Validate the request and decode the annotation packet it carries.
    pub fn get_annotation(&self) -> (r: Result<Vec<u8>, Error>)
        ensures
            !self.valid_spec() ==> r is Err,
            r matches Ok(v) ==> (self.valid_spec() && (self.keyunwrapparams.annotation
                matches Some(a) && a@ == b64_std_of(v@))),
            self.valid_spec() ==> (self.keyunwrapparams.annotation matches Some(a) ==> ((exists|
                b: Seq<u8>,
            | a@ == #[trigger] b64_std_of(b)) ==> r is Ok)),
    {
        self.valid()?;
        match &self.keyunwrapparams.annotation {
            Some(annotation) => b64_decode(annotation.as_str()),
            None => Err(Error::UnwrapParamsNoAnnotation),
        }
    }
}

impl Default for KeyWrapParams {
    /// Empty parameters.
    fn default() -> (r: KeyWrapParams)
        ensures
            r.ec is None,
            r.optsdata is None,
    {
        KeyWrapParams { ec: None, optsdata: None }
    }
}

impl Default for KeyUnwrapParams {
    /// Empty parameters.
    fn default() -> (r: KeyUnwrapParams)
        ensures
            r.dc is None,
            r.annotation is None,
    {
        KeyUnwrapParams { dc: None, annotation: None }
    }
}

impl Default for KeyProviderInput {
    /// An empty request.
    fn default() -> (r: KeyProviderInput)
        ensures
            r.op_spec() == ""@,
            r.keywrapparams.ec is None,
            r.keywrapparams.optsdata is None,
            r.keyunwrapparams.dc is None,
            r.keyunwrapparams.annotation is None,
    {
        let r = KeyProviderInput {
            op: String::new(),
            keywrapparams: KeyWrapParams::default(),
            keyunwrapparams: KeyUnwrapParams::default(),
        };
        proof {
            reveal_strlit("");
            assert(r.op@ =~= ""@);
        }
        r
    }
}

impl Default for Ec {
    /// An empty configuration.
    fn default() -> (r: Ec)
        ensures
            r.empty_spec(),
    {
        Ec { parameters: ParamsMap::new(), decrypt_config: Dc::default() }
    }
}

impl Default for Dc {
    /// An empty configuration.
    fn default() -> (r: Dc)
        ensures
            r.empty_spec(),
    {
        Dc { parameters: ParamsMap::new() }
    }
}

/// The reply to a `keywrap` request.
#[derive(Debug)]
pub struct KeyWrapOutput {
    pub keywrapresults: KeyWrapResults,
}

/// The wrapped key bytes of a `keywrap` reply.
#[derive(Debug)]
pub struct KeyWrapResults {
    pub annotation: Vec<u8>,
}

/// The reply to a `keyunwrap` request.
#[derive(Debug)]
pub struct KeyUnwrapOutput {
    pub keyunwrapresults: KeyUnwrapResults,
}

/// The unwrapped key bytes of a `keyunwrap` reply.
#[derive(Debug)]
pub struct KeyUnwrapResults {
    pub optsdata: Vec<u8>,
}

/// The decimal text of a byte value.
pub open spec fn u8_dec_spec(n: int) -> Seq<char> {
    if n < 10 {
        seq![hex_digit_spec(n)]
    } else if n < 100 {
        seq![hex_digit_spec(n / 10), hex_digit_spec(n % 10)]
    } else {
        seq![hex_digit_spec(n / 100), hex_digit_spec((n / 10) % 10), hex_digit_spec(n % 10)]
    }
}

/// The JSON array text of a byte string, decimal elements.
pub open spec fn bytes_json_spec(bs: Seq<u8>) -> Seq<char>
    decreases bs.len(),
{
    if bs.len() == 0 {
        "[]"@
    } else if bs.len() == 1 {
        seq!['['] + u8_dec_spec(bs[0] as int) + seq![']']
    } else {
        bytes_json_spec(bs.drop_last()).drop_last() + seq![','] + u8_dec_spec(bs.last() as int)
            + seq![']']
    }
}

/// Append the decimal text of a byte.
fn push_u8_dec(out: &mut String, n: u8)
    ensures
        final(out)@ == old(out)@ + u8_dec_spec(n as int),
{
    if n >= 100 {
        string_push(out, crate::jsontext::hex_digit(n / 100));
        string_push(out, crate::jsontext::hex_digit((n / 10) % 10));
        string_push(out, crate::jsontext::hex_digit(n % 10));
        proof {
            assert(out@ =~= old(out)@ + u8_dec_spec(n as int));
        }
    } else if n >= 10 {
        string_push(out, crate::jsontext::hex_digit(n / 10));
        string_push(out, crate::jsontext::hex_digit(n % 10));
        proof {
            assert(out@ =~= old(out)@ + u8_dec_spec(n as int));
        }
    } else {
        string_push(out, crate::jsontext::hex_digit(n));
        proof {
            assert(out@ =~= old(out)@ + u8_dec_spec(n as int));
        }
    }
}

/// Append the JSON array text of a byte string.
fn append_bytes_json(out: &mut String, bs: &Vec<u8>)
    ensures
        final(out)@ == old(out)@ + bytes_json_spec(bs@),
{
    let n = bs.len();
    if n == 0 {
        out.append("[]");
        proof {
            assert(out@ =~= old(out)@ + bytes_json_spec(bs@));
        }
        return ;
    }
    string_push(out, '[');
    let mut i: usize = 0;
    while i < n
        invariant
            n == bs@.len(),
            0 < n,
            0 <= i <= n,
            i == 0 ==> out@ == old(out)@ + seq!['['],
            i > 0 ==> out@ == old(out)@ + bytes_json_spec(bs@.take(i as int)).drop_last(),
        decreases n - i,
    {
        if i > 0 {
            string_push(out, ',');
        }
        push_u8_dec(out, bs[i]);
        proof {
            assert(bs@.take(i + 1).drop_last() =~= bs@.take(i as int));
            assert(bs@.take(i + 1).last() == bs@[i as int]);
            if i == 0 {
                assert(bytes_json_spec(bs@.take(1)).drop_last() =~= seq!['['] + u8_dec_spec(
                    bs@[0] as int,
                ));
                assert(out@ =~= old(out)@ + bytes_json_spec(bs@.take(1)).drop_last());
            } else {
                assert(bytes_json_spec(bs@.take(i + 1)).drop_last() =~= bytes_json_spec(
                    bs@.take(i as int),
                ).drop_last() + seq![','] + u8_dec_spec(bs@[i as int] as int));
                assert(out@ =~= old(out)@ + bytes_json_spec(bs@.take(i + 1)).drop_last());
            }
        }
        i += 1;
    }
    string_push(out, ']');
    proof {
        assert(bs@.take(n as int) =~= bs@);
        assert(bytes_json_spec(bs@).drop_last() + seq![']'] =~= bytes_json_spec(bs@));
        assert(out@ =~= old(out)@ + bytes_json_spec(bs@));
    }
}

/// The serialised form of a `keyunwrap` reply.
pub open spec fn key_unwrap_output_json_spec(o: KeyUnwrapOutput) -> Seq<char> {
    "{\"keyunwrapresults\":{\"optsdata\":"@ + bytes_json_spec(o.keyunwrapresults.optsdata@)
        + "}}"@
}

impl KeyUnwrapOutput {
    /// Serialise the reply as JSON.
    pub fn to_json(&self) -> (r: String)
        ensures
            r@ == key_unwrap_output_json_spec(*self),
    {
        let mut out = String::from_str("{\"keyunwrapresults\":{\"optsdata\":");
        append_bytes_json(&mut out, &self.keyunwrapresults.optsdata);
        out.append("}}");
        out
    }
}

} // verus!
