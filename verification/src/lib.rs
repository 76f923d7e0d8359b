//! Extraction of the caller identity that an authenticating proxy hands to an
//! HTTP service in the `X-Endpoint-API-UserInfo` request header.
//!
//! The header carries a JSON document, encoded in standard base64. The
//! extractor looks the header up, trims its value, decodes and parses it, and
//! gives back either the parsed document or one of three classified errors.

pub mod codec;
pub mod error;
pub mod extract;
pub mod header;
pub mod whitespace;

pub use error::{ErrorKind, ExtractionError, BAD_REQUEST};
pub use extract::ExtractUserInfo;
pub use header::HEADER_X_USER_INFO;
pub use whitespace::trim;
