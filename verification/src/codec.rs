//! Decoding of standard base64 and parsing of JSON, both done by outside
//! crates, with what the rest of the library relies on.

use base64::engine::general_purpose::STANDARD;
use base64::DecodeError;
use base64::Engine;
use serde_json::Value;
use vstd::prelude::*;

verus! {

/// The error of the `base64` crate's decoders.
#[verifier::external_type_specification]
#[verifier::external_body]
pub struct ExDecodeError(DecodeError);

/// A JSON document of any shape, as the `serde_json` crate holds it.
#[verifier::external_type_specification]
#[verifier::external_body]
pub struct ExValue(Value);

/// The error of the `serde_json` crate.
#[verifier::external_type_specification]
#[verifier::external_body]
pub struct ExJsonError(serde_json::Error);

/// What the standard base64 engine, which wants canonical padding, decodes
/// `input` to; `None` where it refuses `input`.
pub uninterp spec fn base64_decoded(input: Seq<u8>) -> Option<Seq<u8>>;

/// The JSON document that `text` parses to; `None` where `text` is no JSON
/// document.
pub uninterp spec fn json_parsed(text: Seq<u8>) -> Option<Value>;

/// The bytes that stand in standard base64: the letters, the digits, `+`, `/`
/// and the padding `=`.
pub open spec fn is_base64_byte(b: u8) -> bool {
    (0x41 <= b && b <= 0x5a) || (0x61 <= b && b <= 0x7a) || (0x30 <= b && b <= 0x39) || b == 0x2b
        || b == 0x2f || b == 0x3d
}

/// Every byte of `input` may stand in standard base64.
pub open spec fn all_base64_bytes(input: Seq<u8>) -> bool {
    forall|i: int| 0 <= i < input.len() ==> is_base64_byte(#[trigger] input[i])
}

/// The bytes that `input` stands for in standard base64. The empty input
/// stands for no bytes. An input whose length is not a multiple of four, or
/// that holds any other byte than those of base64, stands for nothing.
pub open spec fn decoding(input: Seq<u8>) -> Option<Seq<u8>> {
    if input.len() == 0 {
        Some(Seq::empty())
    } else if input.len() % 4 != 0 || !all_base64_bytes(input) {
        None
    } else {
        base64_decoded(input)
    }
}

/// The JSON document that `text` holds. The empty text holds none.
pub open spec fn parsing(text: Seq<u8>) -> Option<Value> {
    if text.len() == 0 {
        None
    } else {
        json_parsed(text)
    }
}

/// What a decoding gave, without the outside error.
pub open spec fn decoded_bytes(r: Result<Vec<u8>, DecodeError>) -> Option<Seq<u8>> {
    match r {
        Ok(bytes) => Some(bytes@),
        Err(_) => None,
    }
}

/// What a parse gave, without the outside error.
pub open spec fn parsed_value(r: Result<Value, serde_json::Error>) -> Option<Value> {
    match r {
        Ok(value) => Some(value),
        Err(_) => None,
    }
}

/// `Engine::decode` of the `base64` crate, on its `STANDARD` engine, which
/// reads the alphabet of RFC 4648 and wants canonical padding. It gives the
/// same answer for the same input, decodes the empty input to no bytes, and
/// refuses an input whose length is not a multiple of four or that holds a byte
/// outside the alphabet and the padding.
#[verifier::external_body]
pub(crate) fn decode_standard(input: &[u8]) -> (r: Result<Vec<u8>, DecodeError>)
    ensures
        decoded_bytes(r) == base64_decoded(input@),
        decoded_bytes(r) == decoding(input@),
{
    STANDARD.decode(input)
}

/// `serde_json::from_slice`, asked for a `Value`. It gives the same answer for
/// the same text, and refuses the empty text.
#[verifier::external_body]
pub(crate) fn parse_json(text: &[u8]) -> (r: Result<Value, serde_json::Error>)
    ensures
        parsed_value(r) == json_parsed(text@),
        parsed_value(r) == parsing(text@),
{
    serde_json::from_slice::<Value>(text)
}

/// `Clone::clone` of a `serde_json` document: the copy is the same document.
pub assume_specification[ <Value as Clone>::clone ](value: &Value) -> (copy: Value)
    ensures
        copy == *value,
;

/// The `Debug` text of a `base64` decoding error. Nothing is claimed of it.
#[verifier::external_body]
pub(crate) fn decode_error_text(error: &DecodeError) -> String {
    format!("{:?}", error)
}

/// The `Debug` text of a `serde_json` error. Nothing is claimed of it.
#[verifier::external_body]
pub(crate) fn json_error_text(error: &serde_json::Error) -> String {
    format!("{:?}", error)
}

} // verus!
