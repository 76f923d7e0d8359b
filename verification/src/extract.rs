//! The extractor: from the head of a request to the caller's identity, or to a
//! classified error.

use crate::codec::{
    all_base64_bytes, decode_error_text, decode_standard, decoded_bytes, decoding,
    json_error_text, parse_json, parsed_value, parsing,
};
use crate::error::{failure, ErrorKind, ExtractionError};
use crate::header::{
    first_header_value, first_value, header_fields, lemma_first_value_ignores_case,
    lemma_first_value_is_first, lemma_first_value_none, lemma_header_name_is_token, same_name,
    HEADER_X_USER_INFO,
};
use crate::whitespace::{
    all_whitespace, is_whitespace, lemma_trim_blank, lemma_trim_ignores_padding, trim, trimmed,
};
use axum::http::request::Parts;
use base64::DecodeError;
use serde_json::Value;
use vstd::prelude::*;

verus! {

/// The caller's identity: the JSON document that the `X-Endpoint-API-UserInfo`
/// header carried, whatever its shape.
#[derive(Debug)]
pub struct ExtractUserInfo(pub Value);

impl Clone for ExtractUserInfo {
    fn clone(&self) -> (copy: Self)
        ensures
            copy == *self,
    {
        ExtractUserInfo(self.0.clone())
    }
}

/// What the parse of decoded bytes leads to: the document, or `InvalidJson`.
pub open spec fn parse_outcome(parsed: Option<Value>) -> Result<Value, ErrorKind> {
    match parsed {
        Some(value) => Ok(value),
        None => Err(ErrorKind::InvalidJson),
    }
}

/// What the decoding of a trimmed header value leads to: `InvalidBase64` where
/// the value was refused, else what the parse of the decoded bytes leads to.
pub open spec fn decode_outcome(decoded: Option<Seq<u8>>) -> Result<Value, ErrorKind> {
    match decoded {
        Some(bytes) => parse_outcome(parsing(bytes)),
        None => Err(ErrorKind::InvalidBase64),
    }
}

/// What a header value leads to: it is trimmed, decoded and parsed, and the
/// first step that fails decides the error.
pub open spec fn value_outcome(raw: Seq<u8>) -> Result<Value, ErrorKind> {
    decode_outcome(decoding(trimmed(raw)))
}

/// What the header fields of a request lead to: `HeaderMissing` where no field
/// has the name of the identity header, else what the value of the first such
/// field leads to.
pub open spec fn outcome(fields: Seq<(Seq<char>, Seq<u8>)>) -> Result<Value, ErrorKind> {
    match first_value(fields, HEADER_X_USER_INFO@) {
        Some(raw) => value_outcome(raw),
        None => Err(ErrorKind::HeaderMissing),
    }
}

/// The result `r` is the one that `expected` asks for: the identity that holds
/// the document, or an error of the kind with the message of that kind.
pub open spec fn agrees(
    r: Result<ExtractUserInfo, ExtractionError>,
    expected: Result<Value, ErrorKind>,
) -> bool {
    match expected {
        Ok(value) => r matches Ok(info) && info.0 == value,
        Err(kind) => r matches Err(error) && error@ == failure(kind),
    }
}

impl ExtractUserInfo {
    /// Extracts the caller's identity from the head of a request.
    ///
    /// The identity header is looked up without regard to the case of its name;
    /// where the request has several, the first one counts. Its value is
    /// trimmed, decoded as standard base64 and parsed as JSON.
    pub fn from_request_parts(parts: &Parts) -> (r: Result<ExtractUserInfo, ExtractionError>)
        ensures
            agrees(r, outcome(header_fields(*parts))),
    {
        proof {
            lemma_header_name_is_token();
        }
        match first_header_value(parts, HEADER_X_USER_INFO) {
            Some(raw) => Self::from_header_value(raw),
            None => Err(ExtractionError::new(ErrorKind::HeaderMissing)),
        }
    }

    /// Extracts the caller's identity from the value of the identity header.
    pub fn from_header_value(raw: &[u8]) -> (r: Result<ExtractUserInfo, ExtractionError>)
        ensures
            agrees(r, value_outcome(raw@)),
    {
        Self::from_decoded(decode_standard(trim(raw)))
    }

    /// Goes on from the decoding of the header value: a refused value is
    /// reported, decoded bytes are parsed.
    pub fn from_decoded(decoded: Result<Vec<u8>, DecodeError>) -> (r: Result<
        ExtractUserInfo,
        ExtractionError,
    >)
        ensures
            agrees(r, decode_outcome(decoded_bytes(decoded))),
    {
        match decoded {
            Ok(bytes) => Self::from_parsed(parse_json(bytes.as_slice())),
            Err(error) => Err(
                ExtractionError::with_cause(ErrorKind::InvalidBase64, decode_error_text(&error)),
            ),
        }
    }

    /// Goes on from the parse of the decoded bytes: the document becomes the
    /// identity, a failed parse is reported.
    pub fn from_parsed(parsed: Result<Value, serde_json::Error>) -> (r: Result<
        ExtractUserInfo,
        ExtractionError,
    >)
        ensures
            agrees(r, parse_outcome(parsed_value(parsed))),
    {
        match parsed {
            Ok(value) => Ok(ExtractUserInfo(value)),
            Err(error) => Err(
                ExtractionError::with_cause(ErrorKind::InvalidJson, json_error_text(&error)),
            ),
        }
    }
}

/// A request without the identity header, in whatever case its name is
/// written, is answered with `HeaderMissing`, and no other request is.
pub proof fn lemma_header_missing(fields: Seq<(Seq<char>, Seq<u8>)>)
    ensures
        outcome(fields) == Err::<Value, ErrorKind>(ErrorKind::HeaderMissing) <==> forall|i: int|
            0 <= i < fields.len() ==> !same_name((#[trigger] fields[i]).0, HEADER_X_USER_INFO@),
{
    lemma_first_value_none(fields, HEADER_X_USER_INFO@);
}

/// Where the request has the identity header more than once, the first one
/// decides.
pub proof fn lemma_first_header_decides(fields: Seq<(Seq<char>, Seq<u8>)>, at: int)
    requires
        0 <= at < fields.len(),
        same_name(fields[at].0, HEADER_X_USER_INFO@),
        forall|i: int| 0 <= i < at ==> !same_name((#[trigger] fields[i]).0, HEADER_X_USER_INFO@),
    ensures
        outcome(fields) == value_outcome(fields[at].1),
{
    lemma_first_value_is_first(fields, HEADER_X_USER_INFO@, at);
}

/// A header value is answered with `InvalidBase64` exactly when what is left
/// of it after trimming is not standard base64.
pub proof fn lemma_invalid_base64(raw: Seq<u8>)
    ensures
        value_outcome(raw) == Err::<Value, ErrorKind>(ErrorKind::InvalidBase64) <==> decoding(
            trimmed(raw),
        ) is None,
{
}

/// A header value is answered with `InvalidJson` exactly when it decodes to
/// bytes that are not a JSON document.
pub proof fn lemma_invalid_json(raw: Seq<u8>)
    ensures
        value_outcome(raw) == Err::<Value, ErrorKind>(ErrorKind::InvalidJson) <==> (decoding(
            trimmed(raw),
        ) matches Some(bytes) && parsing(bytes) is None),
{
}

/// A header value gives an identity exactly when it decodes to bytes that are
/// a JSON document, and the identity is that document.
pub proof fn lemma_success(raw: Seq<u8>, value: Value)
    ensures
        value_outcome(raw) == Ok::<Value, ErrorKind>(value) <==> (decoding(trimmed(raw)) matches Some(
            bytes,
        ) && parsing(bytes) == Some(value)),
{
}

/// A header value that is empty or all whitespace decodes to no bytes, which
/// are no JSON document: it is answered with `InvalidJson`, not with
/// `HeaderMissing`.
pub proof fn lemma_blank_value(raw: Seq<u8>)
    requires
        all_whitespace(raw),
    ensures
        value_outcome(raw) == Err::<Value, ErrorKind>(ErrorKind::InvalidJson),
{
    lemma_trim_blank(raw);
}

/// A header value that after trimming still holds a byte that base64 does not
/// know is answered with `InvalidBase64`.
pub proof fn lemma_stray_byte(raw: Seq<u8>)
    requires
        !all_base64_bytes(trimmed(raw)),
    ensures
        value_outcome(raw) == Err::<Value, ErrorKind>(ErrorKind::InvalidBase64),
{
}

/// A header value whose length after trimming is not a multiple of four, as
/// that of unpadded base64 may be, is answered with `InvalidBase64`.
pub proof fn lemma_wrong_length(raw: Seq<u8>)
    requires
        trimmed(raw).len() % 4 != 0,
    ensures
        value_outcome(raw) == Err::<Value, ErrorKind>(ErrorKind::InvalidBase64),
{
}

/// Whitespace inside a header value is not trimmed away, and makes the value
/// invalid base64.
pub proof fn lemma_inner_whitespace(raw: Seq<u8>, at: int)
    requires
        0 <= at < trimmed(raw).len(),
        is_whitespace(trimmed(raw)[at]),
    ensures
        value_outcome(raw) == Err::<Value, ErrorKind>(ErrorKind::InvalidBase64),
{
}

/// Whitespace before and after a header value does not change the answer.
pub proof fn lemma_padding_ignored(before: Seq<u8>, raw: Seq<u8>, after: Seq<u8>)
    requires
        all_whitespace(before),
        all_whitespace(after),
    ensures
        value_outcome(before + raw + after) == value_outcome(raw),
{
    lemma_trim_ignores_padding(before, raw, after);
}

/// The case of the letters in the names of the header fields does not change
/// the answer.
pub proof fn lemma_name_case_ignored(
    fields: Seq<(Seq<char>, Seq<u8>)>,
    other_fields: Seq<(Seq<char>, Seq<u8>)>,
)
    requires
        fields.len() == other_fields.len(),
        forall|i: int|
            0 <= i < fields.len() ==> same_name((#[trigger] fields[i]).0, other_fields[i].0)
                && fields[i].1 == other_fields[i].1,
    ensures
        outcome(fields) == outcome(other_fields),
{
    lemma_first_value_ignores_case(
        fields,
        HEADER_X_USER_INFO@,
        other_fields,
        HEADER_X_USER_INFO@,
    );
}

/// Two extractions from requests with the same header fields end alike: with
/// the same document, or with errors of the same kind and message.
pub proof fn lemma_extraction_repeats(
    parts: Parts,
    again: Parts,
    r: Result<ExtractUserInfo, ExtractionError>,
    r_again: Result<ExtractUserInfo, ExtractionError>,
)
    requires
        header_fields(parts) == header_fields(again),
        agrees(r, outcome(header_fields(parts))),
        agrees(r_again, outcome(header_fields(again))),
    ensures
        match r {
            Ok(info) => r_again matches Ok(info_again) && info_again == info,
            Err(error) => r_again matches Err(error_again) && error_again@ == error@,
        },
{
}

} // verus!
