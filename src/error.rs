use vstd::prelude::*;

verus! {

/// The error that `url::Url::parse` reports for a malformed URL string.
#[verifier::external_type_specification]
#[verifier::external_body]
pub struct ExParseError(url::ParseError);

/// The error that `reqwest` reports for a failed request or a body that
/// does not decode.
#[verifier::external_type_specification]
#[verifier::external_body]
pub struct ExRequestError(reqwest::Error);

/// The error of a local file read or write.
#[verifier::external_type_specification]
#[verifier::external_body]
pub struct ExIoError(std::io::Error);

/// The error that `reqwest` reports for a header value it cannot send.
#[verifier::external_type_specification]
#[verifier::external_body]
pub struct ExInvalidHeaderValue(reqwest::header::InvalidHeaderValue);

/// What an operation of this library can fail with.
///
/// Building a URL fails locally and only with `URLPathError` or
/// `InvalidIdentifier`; the other kinds come from the network and the file
/// system.
#[derive(Debug)]
pub enum BotifactoryError {
    /// The endpoint string is not a valid absolute URL.
    UrlParseError(url::ParseError),
    /// A transport, HTTP status or body-decoding failure.
    RequestError(reqwest::Error),
    /// The endpoint cannot have path segments (a cannot-be-a-base URL).
    URLPathError,
    /// The scope's identifier is of the variant that the lookup does not
    /// accept.
    InvalidIdentifier,
    /// A local file could not be read or written.
    IOError(std::io::Error),
    /// A header value failed validation.
    HeaderValue(reqwest::header::InvalidHeaderValue),
}

} // verus!
