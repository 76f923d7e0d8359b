//! The three ways in which an extraction fails, and the error that reports one.

use crate::header::HEADER_X_USER_INFO;
use vstd::prelude::*;
use vstd::string::StringExecFns;

verus! {

/// The HTTP status that goes with every failed extraction: 400, Bad Request.
pub const BAD_REQUEST: u16 = 400;

/// Why an extraction failed.
#[derive(Clone, Copy, Debug, PartialEq, Eq, Structural)]
pub enum ErrorKind {
    /// The request has no such header.
    HeaderMissing,
    /// The trimmed value of the header is not standard base64.
    InvalidBase64,
    /// The decoded bytes are not a JSON document.
    InvalidJson,
}

impl ErrorKind {
    /// The words that say what was wrong with the header.
    pub open spec fn reason(self) -> Seq<char> {
        match self {
            ErrorKind::HeaderMissing => "Not found"@,
            ErrorKind::InvalidBase64 => "Not a valid base 64"@,
            ErrorKind::InvalidJson => "Not a valid JSON"@,
        }
    }

    /// The message that is sent to the client: `Invalid`, the header's name, a
    /// colon between two spaces, and the reason.
    pub open spec fn message(self) -> Seq<char> {
        "Invalid "@ + HEADER_X_USER_INFO@ + " : "@ + self.reason()
    }

    /// The words that say what was wrong with the header.
    pub fn reason_text(self) -> (r: &'static str)
        ensures
            r@ == self.reason(),
    {
        match self {
            ErrorKind::HeaderMissing => "Not found",
            ErrorKind::InvalidBase64 => "Not a valid base 64",
            ErrorKind::InvalidJson => "Not a valid JSON",
        }
    }

    /// The message that is sent to the client.
    pub fn message_text(self) -> (r: String)
        ensures
            r@ == self.message(),
    {
        String::from_str("Invalid ").concat(HEADER_X_USER_INFO).concat(" : ").concat(
            self.reason_text(),
        )
    }
}

/// The messages, letter for letter.
pub proof fn lemma_messages()
    ensures
        ErrorKind::HeaderMissing.message() == "Invalid X-Endpoint-API-UserInfo : Not found"@,
        ErrorKind::InvalidBase64.message()
            == "Invalid X-Endpoint-API-UserInfo : Not a valid base 64"@,
        ErrorKind::InvalidJson.message() == "Invalid X-Endpoint-API-UserInfo : Not a valid JSON"@,
{
    reveal_strlit("Invalid ");
    reveal_strlit("X-Endpoint-API-UserInfo");
    reveal_strlit(" : ");
    reveal_strlit("Not found");
    reveal_strlit("Not a valid base 64");
    reveal_strlit("Not a valid JSON");
    reveal_strlit("Invalid X-Endpoint-API-UserInfo : Not found");
    reveal_strlit("Invalid X-Endpoint-API-UserInfo : Not a valid base 64");
    reveal_strlit("Invalid X-Endpoint-API-UserInfo : Not a valid JSON");
    assert(ErrorKind::HeaderMissing.message() =~= "Invalid X-Endpoint-API-UserInfo : Not found"@);
    assert(ErrorKind::InvalidBase64.message()
        =~= "Invalid X-Endpoint-API-UserInfo : Not a valid base 64"@);
    assert(ErrorKind::InvalidJson.message()
        =~= "Invalid X-Endpoint-API-UserInfo : Not a valid JSON"@);
}

/// What an extraction error says to the client: why the extraction failed, and
/// the message.
pub struct Failure {
    pub kind: ErrorKind,
    pub message: Seq<char>,
}

/// The failure of the given kind, with the message of that kind.
pub open spec fn failure(kind: ErrorKind) -> Failure {
    Failure { kind, message: kind.message() }
}

/// A failed extraction: its kind, the message for the client, and for the
/// service's own log the cause as the decoder or the parser gave it.
#[derive(Debug, PartialEq, Eq)]
pub struct ExtractionError {
    kind: ErrorKind,
    message: String,
    cause: String,
}

impl View for ExtractionError {
    type V = Failure;

    closed spec fn view(&self) -> Failure {
        Failure { kind: self.kind, message: self.message@ }
    }
}

impl Clone for ExtractionError {
    fn clone(&self) -> (e: Self)
        ensures
            e == *self,
    {
        proof {
            use_type_invariant(self);
        }
        ExtractionError {
            kind: self.kind,
            message: self.message.clone(),
            cause: self.cause.clone(),
        }
    }
}

impl ExtractionError {
    /// The message is always the one that belongs to the kind.
    #[verifier::type_invariant]
    spec fn well_formed(self) -> bool {
        self.message@ == self.kind.message()
    }

    /// The cause, as the log shows it. It is empty where none was recorded.
    pub closed spec fn cause_text(&self) -> Seq<char> {
        self.cause@
    }

    /// An error of the given kind, with no cause recorded.
    pub fn new(kind: ErrorKind) -> (e: Self)
        ensures
            e@ == failure(kind),
            e.cause_text() == Seq::<char>::empty(),
    {
        ExtractionError { kind, message: kind.message_text(), cause: String::new() }
    }

    /// An error of the given kind, with the cause that the decoder or the parser
    /// gave.
    pub fn with_cause(kind: ErrorKind, cause: String) -> (e: Self)
        ensures
            e@ == failure(kind),
            e.cause_text() == cause@,
    {
        ExtractionError { kind, message: kind.message_text(), cause }
    }

    /// Why the extraction failed.
    pub fn kind(&self) -> (k: ErrorKind)
        ensures
            k == self@.kind,
            self@ == failure(k),
    {
        proof {
            use_type_invariant(self);
        }
        self.kind
    }

    /// The message for the client.
    pub fn message(&self) -> (m: &str)
        ensures
            m@ == self@.message,
            m@ == self@.kind.message(),
    {
        proof {
            use_type_invariant(self);
        }
        self.message.as_str()
    }

    /// The HTTP status for the client: the same for every kind.
    pub fn status(&self) -> (s: u16)
        ensures
            s == BAD_REQUEST,
    {
        BAD_REQUEST
    }

    /// The cause for the log.
    pub fn cause(&self) -> (c: &str)
        ensures
            c@ == self.cause_text(),
    {
        self.cause.as_str()
    }
}

} // verus!
