//! The failures of an exchange with the server.

use crate::text::{decimal, decimal_text};
use vstd::prelude::*;

verus! {

/// `reqwest::Error`, the failure that the HTTP transport reports. The
/// library carries such a value, and reads it only for its description.
#[verifier::external_type_specification]
#[verifier::external_body]
pub struct ExTransportFailure(reqwest::Error);

/// `serde_json::Error`, the failure that the JSON codec reports. The
/// library carries such a value, and reads it only for its description.
#[verifier::external_type_specification]
#[verifier::external_body]
pub struct ExCodecFailure(serde_json::Error);

/// Why an operation failed, in the order in which failures are detected.
#[derive(Debug)]
pub enum GoIamError {
    /// No HTTP response was obtained: DNS, connection or timeout failure.
    HttpError(reqwest::Error),
    /// The body of a successful response is not the expected JSON.
    JsonError(serde_json::Error),
    /// The server answered, and its envelope reports failure.
    AuthError { message: String },
    /// The server answered with a status outside 200..=299.
    ApiError { message: String, status: u16 },
    /// The envelope reports success and lacks the data it must carry.
    InvalidResponse { message: String },
}

/// A [`GoIamError`] with its texts as sequences of characters.
pub enum Failure {
    Transport(reqwest::Error),
    Decode(serde_json::Error),
    Auth { message: Seq<char> },
    Api { message: Seq<char>, status: u16 },
    InvalidResponse { message: Seq<char> },
}

impl Failure {
    /// Whether the failure wraps one of the transport or of the codec.
    pub open spec fn has_cause(self) -> bool {
        self is Transport || self is Decode
    }
}

impl View for GoIamError {
    type V = Failure;

    open spec fn view(&self) -> Failure {
        match *self {
            GoIamError::HttpError(cause) => Failure::Transport(cause),
            GoIamError::JsonError(cause) => Failure::Decode(cause),
            GoIamError::AuthError { message } => Failure::Auth { message: message@ },
            GoIamError::ApiError { message, status } => Failure::Api { message: message@, status },
            GoIamError::InvalidResponse { message } => Failure::InvalidResponse {
                message: message@,
            },
        }
    }
}

impl From<reqwest::Error> for GoIamError {
    /// A transport failure is reported as it is, and as nothing else.
    fn from(cause: reqwest::Error) -> (error: GoIamError) {
        GoIamError::HttpError(cause)
    }
}

impl vstd::std_specs::convert::FromSpecImpl<reqwest::Error> for GoIamError {
    open spec fn obeys_from_spec() -> bool {
        true
    }

    open spec fn from_spec(cause: reqwest::Error) -> GoIamError {
        GoIamError::HttpError(cause)
    }
}

impl From<serde_json::Error> for GoIamError {
    /// A codec failure is reported as it is, and as nothing else.
    fn from(cause: serde_json::Error) -> (error: GoIamError) {
        GoIamError::JsonError(cause)
    }
}

impl vstd::std_specs::convert::FromSpecImpl<serde_json::Error> for GoIamError {
    open spec fn obeys_from_spec() -> bool {
        true
    }

    open spec fn from_spec(cause: serde_json::Error) -> GoIamError {
        GoIamError::JsonError(cause)
    }
}

/// The line that describes a failure, given the text of its cause where the
/// cause is a value of the transport or of the codec.
pub open spec fn failure_line(failure: Failure, cause: Seq<char>) -> Seq<char> {
    match failure {
        Failure::Transport(_) => "HTTP request failed: "@ + cause,
        Failure::Decode(_) => "JSON parsing failed: "@ + cause,
        Failure::Auth { message } => "Authentication failed: "@ + message,
        Failure::Api { message, status } => "API error: "@ + message + " (status: "@ + decimal(
            status as nat,
        ) + ")"@,
        Failure::InvalidResponse { message } => "Invalid response: "@ + message,
    }
}

/// `Display` of `reqwest::Error`, through `to_string`: the text in which the
/// transport describes its failure. Nothing is claimed of that text.
#[verifier::external_body]
fn transport_cause(cause: &reqwest::Error) -> (text: String) {
    cause.to_string()
}

/// `Display` of `serde_json::Error`, through `to_string`: the text in which
/// the codec describes its failure. Nothing is claimed of that text.
#[verifier::external_body]
fn codec_cause(cause: &serde_json::Error) -> (text: String) {
    cause.to_string()
}

impl GoIamError {
    /// Describes the failure in one line, given the text of its cause.
    /// `cause` is read only where the failure holds a value of the transport
    /// or of the codec.
    pub fn describe(&self, cause: &str) -> (line: String)
        ensures
            line@ == failure_line(self@, cause@),
    {
        match self {
            GoIamError::HttpError(_) => String::from_str("HTTP request failed: ").concat(cause),
            GoIamError::JsonError(_) => String::from_str("JSON parsing failed: ").concat(cause),
            GoIamError::AuthError { message } => String::from_str("Authentication failed: ").concat(
                message.as_str(),
            ),
            GoIamError::ApiError { message, status } => {
                let number = decimal_text(*status);
                String::from_str("API error: ").concat(message.as_str()).concat(
                    " (status: ",
                ).concat(number.as_str()).concat(")")
            },
            GoIamError::InvalidResponse { message } => String::from_str(
                "Invalid response: ",
            ).concat(message.as_str()),
        }
    }

    /// The description of the failure that this one wraps: that of the
    /// transport or of the codec. `None` where it wraps none.
    pub fn source(&self) -> (cause: Option<String>)
        ensures
            cause is Some <==> self@.has_cause(),
    {
        match self {
            GoIamError::HttpError(cause) => Some(transport_cause(cause)),
            GoIamError::JsonError(cause) => Some(codec_cause(cause)),
            _ => None,
        }
    }

    /// The failure in one line. For a failure of the transport or of the
    /// codec the line ends in the cause's own description, whatever that is;
    /// every other line is fixed by the failure alone.
    pub fn to_string(&self) -> (line: String)
        ensures
            exists|cause: Seq<char>| line@ == failure_line(self@, cause),
            !self@.has_cause() ==> line@ == failure_line(self@, Seq::empty()),
    {
        match self.source() {
            Some(cause) => self.describe(cause.as_str()),
            None => self.describe(""),
        }
    }
}

} // verus!
