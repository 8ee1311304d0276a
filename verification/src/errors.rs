//! The errors of the bridge and the HTTP status each one is answered with.
use vstd::prelude::*;

use crate::text::copy_string;

verus! {

/// HTTP 400 Bad Request.
pub const BAD_REQUEST: u16 = 400;
/// HTTP 401 Unauthorized.
pub const UNAUTHORIZED: u16 = 401;
/// HTTP 403 Forbidden.
pub const FORBIDDEN: u16 = 403;
/// HTTP 409 Conflict.
pub const CONFLICT: u16 = 409;
/// HTTP 500 Internal Server Error.
pub const INTERNAL_SERVER_ERROR: u16 = 500;

/// The kind of a JSON Web Token failure, as `jsonwebtoken` reports it.
#[derive(Debug, Clone, Copy, PartialEq, Eq, Structural)]
pub enum JwtErrorKind {
    InvalidToken,
    InvalidSignature,
    InvalidEcdsaKey,
    InvalidRsaKey,
    RsaFailedSigning,
    InvalidAlgorithmName,
    InvalidKeyFormat,
    MissingRequiredClaim,
    ExpiredSignature,
    InvalidIssuer,
    InvalidAudience,
    InvalidSubject,
    ImmatureSignature,
    InvalidAlgorithm,
    MissingAlgorithm,
    Base64,
    Json,
    Utf8,
    Crypto,
    /// A kind added to `jsonwebtoken` after these.
    Other,
}

/// The errors of the bridge. An error that comes from another library holds
/// the text that library gives for it.
#[derive(Debug)]
pub enum BridgeError {
    GeneralError(String),
    HtmxTagNotFound,
    TeraError(String),
    SystemTimeError(String),
    JsonWebTokenError(JwtErrorKind, String),
    IntrospectionError(&'static str),
    QueryDeserializeError(String),
    NotAdmin,
    Unauthorized(String),
    InferenceServiceHeaderNotFound,
    ServiceDoesNotExist(String),
    TomlLookupError,
    TomlError(String),
    StringConversionError,
    DeserializationError(String),
    ClaimsVerificationError(String),
    NonceCookieNotFound,
    TokenRequestError(String),
    IOError(String),
    URLParseError(String),
    AuthorizationServerNotSupported,
    MongoError(String),
    UserNotFound(String),
    UserNotAllowedOnPage(String),
    SerdeJsonError(String),
    FormDeserializeError(String),
    RecordSearchError(String),
    WSError(String),
    KubeError(String),
    NotebookExistsError(String),
    NotebookAccessError(String),
    KubeClientError(String),
    ReqwestError(String),
    RedisError(String),
    OpenIDError(String),
    Argon2Error(String),
    MCPParseIssue,
    MSGSendError(String),
    TokioJoinError(String),
}

/// The status a JSON Web Token failure is answered with: a token that cannot
/// be trusted is unauthorized, a malformed one a bad request, and the rest
/// an internal error.
pub open spec fn jwt_status(kind: JwtErrorKind) -> u16 {
    match kind {
        JwtErrorKind::InvalidToken | JwtErrorKind::InvalidSignature | JwtErrorKind::InvalidIssuer
        | JwtErrorKind::InvalidAudience | JwtErrorKind::InvalidSubject
        | JwtErrorKind::RsaFailedSigning | JwtErrorKind::ExpiredSignature
        | JwtErrorKind::ImmatureSignature => UNAUTHORIZED,
        JwtErrorKind::MissingRequiredClaim | JwtErrorKind::InvalidAlgorithmName
        | JwtErrorKind::InvalidAlgorithm | JwtErrorKind::MissingAlgorithm
        | JwtErrorKind::InvalidKeyFormat | JwtErrorKind::Json => BAD_REQUEST,
        _ => INTERNAL_SERVER_ERROR,
    }
}

/// The status each error is answered with.
pub open spec fn status_of(e: BridgeError) -> u16 {
    match e {
        BridgeError::QueryDeserializeError(_) | BridgeError::InferenceServiceHeaderNotFound
        | BridgeError::ServiceDoesNotExist(_) | BridgeError::HtmxTagNotFound
        | BridgeError::AuthorizationServerNotSupported | BridgeError::FormDeserializeError(_)
        | BridgeError::RecordSearchError(_) | BridgeError::IntrospectionError(_)
        | BridgeError::MCPParseIssue => BAD_REQUEST,
        BridgeError::JsonWebTokenError(kind, _) => jwt_status(kind),
        BridgeError::Unauthorized(_) | BridgeError::ClaimsVerificationError(_)
        | BridgeError::NonceCookieNotFound | BridgeError::TokenRequestError(_)
        | BridgeError::UserNotAllowedOnPage(_) => UNAUTHORIZED,
        BridgeError::UserNotFound(_) | BridgeError::NotAdmin | BridgeError::NotebookAccessError(
            _,
        ) => FORBIDDEN,
        BridgeError::NotebookExistsError(_) => CONFLICT,
        _ => INTERNAL_SERVER_ERROR,
    }
}

impl BridgeError {
    /// The HTTP status this error is answered with.
    pub fn status_code(&self) -> (r: u16)
        ensures
            r == status_of(*self),
    {
        match self {
            BridgeError::GeneralError(_) => INTERNAL_SERVER_ERROR,
            BridgeError::TeraError(_) => INTERNAL_SERVER_ERROR,
            BridgeError::SystemTimeError(_) => INTERNAL_SERVER_ERROR,
            BridgeError::MSGSendError(_) => INTERNAL_SERVER_ERROR,
            BridgeError::TokioJoinError(_) => INTERNAL_SERVER_ERROR,
            BridgeError::QueryDeserializeError(_) => BAD_REQUEST,
            BridgeError::InferenceServiceHeaderNotFound => BAD_REQUEST,
            BridgeError::ServiceDoesNotExist(_) => BAD_REQUEST,
            BridgeError::HtmxTagNotFound => BAD_REQUEST,
            BridgeError::AuthorizationServerNotSupported => BAD_REQUEST,
            BridgeError::FormDeserializeError(_) => BAD_REQUEST,
            BridgeError::RecordSearchError(_) => BAD_REQUEST,
            BridgeError::IntrospectionError(_) => BAD_REQUEST,
            BridgeError::MCPParseIssue => BAD_REQUEST,
            BridgeError::JsonWebTokenError(kind, _) => {
                match kind {
                    // Unauthorized errors
                    JwtErrorKind::InvalidToken => UNAUTHORIZED,
                    JwtErrorKind::InvalidSignature => UNAUTHORIZED,
                    JwtErrorKind::InvalidIssuer => UNAUTHORIZED,
                    JwtErrorKind::InvalidAudience => UNAUTHORIZED,
                    JwtErrorKind::InvalidSubject => UNAUTHORIZED,
                    JwtErrorKind::RsaFailedSigning => UNAUTHORIZED,
                    JwtErrorKind::ExpiredSignature => UNAUTHORIZED,
                    JwtErrorKind::ImmatureSignature => UNAUTHORIZED,
                    // Bad request errors
                    JwtErrorKind::MissingRequiredClaim => BAD_REQUEST,
                    JwtErrorKind::InvalidAlgorithmName => BAD_REQUEST,
                    JwtErrorKind::InvalidAlgorithm => BAD_REQUEST,
                    JwtErrorKind::MissingAlgorithm => BAD_REQUEST,
                    JwtErrorKind::InvalidKeyFormat => BAD_REQUEST,
                    JwtErrorKind::Json => BAD_REQUEST,
                    // Internal errors
                    JwtErrorKind::Utf8 => INTERNAL_SERVER_ERROR,
                    JwtErrorKind::Crypto => INTERNAL_SERVER_ERROR,
                    JwtErrorKind::InvalidEcdsaKey => INTERNAL_SERVER_ERROR,
                    JwtErrorKind::InvalidRsaKey => INTERNAL_SERVER_ERROR,
                    JwtErrorKind::Base64 => INTERNAL_SERVER_ERROR,
                    JwtErrorKind::Other => INTERNAL_SERVER_ERROR,
                }
            },
            BridgeError::TomlLookupError => INTERNAL_SERVER_ERROR,
            BridgeError::StringConversionError => INTERNAL_SERVER_ERROR,
            BridgeError::DeserializationError(_) => INTERNAL_SERVER_ERROR,
            BridgeError::IOError(_) => INTERNAL_SERVER_ERROR,
            BridgeError::TomlError(_) => INTERNAL_SERVER_ERROR,
            BridgeError::URLParseError(_) => INTERNAL_SERVER_ERROR,
            BridgeError::MongoError(_) => INTERNAL_SERVER_ERROR,
            BridgeError::SerdeJsonError(_) => INTERNAL_SERVER_ERROR,
            BridgeError::WSError(_) => INTERNAL_SERVER_ERROR,
            BridgeError::ReqwestError(_) => INTERNAL_SERVER_ERROR,
            BridgeError::RedisError(_) => INTERNAL_SERVER_ERROR,
            BridgeError::OpenIDError(_) => INTERNAL_SERVER_ERROR,
            BridgeError::Argon2Error(_) => INTERNAL_SERVER_ERROR,
            BridgeError::KubeError(_) => INTERNAL_SERVER_ERROR,
            BridgeError::KubeClientError(_) => INTERNAL_SERVER_ERROR,
            BridgeError::Unauthorized(_) => UNAUTHORIZED,
            BridgeError::ClaimsVerificationError(_) => UNAUTHORIZED,
            BridgeError::NonceCookieNotFound => UNAUTHORIZED,
            BridgeError::TokenRequestError(_) => UNAUTHORIZED,
            BridgeError::UserNotAllowedOnPage(_) => UNAUTHORIZED,
            BridgeError::UserNotFound(_) => FORBIDDEN,
            BridgeError::NotAdmin => FORBIDDEN,
            BridgeError::NotebookAccessError(_) => FORBIDDEN,
            BridgeError::NotebookExistsError(_) => CONFLICT,
        }
    }
}

/// The text of an error.
pub open spec fn message_of(e: BridgeError) -> Seq<char> {
    match e {
        BridgeError::HtmxTagNotFound => "HTMX tag not found in header"@,
        BridgeError::JsonWebTokenError(_, m) => m@,
        BridgeError::IntrospectionError(m) => m@,
        BridgeError::QueryDeserializeError(m) => "The query could not be deserialized: "@ + m@,
        BridgeError::NotAdmin => "Not admin"@,
        BridgeError::InferenceServiceHeaderNotFound => "Inference-Service header not found"@,
        BridgeError::ServiceDoesNotExist(m) => "Service "@ + m@ + " does does not exist"@,
        BridgeError::TomlLookupError => "Toml lookup error"@,
        BridgeError::StringConversionError => "String conversion error"@,
        BridgeError::NonceCookieNotFound => "Nonce cookie not found"@,
        BridgeError::TokenRequestError(m) => "Error when requesting token from Auth server: "@ + m@,
        BridgeError::AuthorizationServerNotSupported => "Authorization server not supported"@,
        BridgeError::UserNotAllowedOnPage(m) => "User cannot access this page "@ + m@,
        BridgeError::MCPParseIssue => "Cannot parse MCP from URL"@,
        BridgeError::GeneralError(m) | BridgeError::TeraError(m) | BridgeError::SystemTimeError(m)
        | BridgeError::Unauthorized(m) | BridgeError::TomlError(m)
        | BridgeError::DeserializationError(m) | BridgeError::ClaimsVerificationError(m)
        | BridgeError::IOError(m) | BridgeError::URLParseError(m) | BridgeError::MongoError(m)
        | BridgeError::UserNotFound(m) | BridgeError::SerdeJsonError(m)
        | BridgeError::FormDeserializeError(m) | BridgeError::RecordSearchError(m)
        | BridgeError::WSError(m) | BridgeError::KubeError(m) | BridgeError::NotebookExistsError(m)
        | BridgeError::NotebookAccessError(m) | BridgeError::KubeClientError(m)
        | BridgeError::ReqwestError(m) | BridgeError::RedisError(m) | BridgeError::OpenIDError(m)
        | BridgeError::Argon2Error(m) | BridgeError::MSGSendError(m)
        | BridgeError::TokioJoinError(m) => m@,
    }
}

fn joined(a: &str, b: &str) -> (r: String)
    ensures
        r@ == a@ + b@,
{
    copy_string(a).concat(b)
}

impl BridgeError {
    /// The text the error is shown with.
    pub fn message(&self) -> (r: String)
        ensures
            r@ == message_of(*self),
    {
        match self {
            BridgeError::HtmxTagNotFound => copy_string("HTMX tag not found in header"),
            BridgeError::JsonWebTokenError(_, m) => m.clone(),
            BridgeError::IntrospectionError(m) => copy_string(m),
            BridgeError::QueryDeserializeError(m) => joined(
                "The query could not be deserialized: ",
                m.as_str(),
            ),
            BridgeError::NotAdmin => copy_string("Not admin"),
            BridgeError::InferenceServiceHeaderNotFound => copy_string(
                "Inference-Service header not found",
            ),
            BridgeError::ServiceDoesNotExist(m) => joined("Service ", m.as_str()).concat(
                " does does not exist",
            ),
            BridgeError::TomlLookupError => copy_string("Toml lookup error"),
            BridgeError::StringConversionError => copy_string("String conversion error"),
            BridgeError::NonceCookieNotFound => copy_string("Nonce cookie not found"),
            BridgeError::TokenRequestError(m) => joined(
                "Error when requesting token from Auth server: ",
                m.as_str(),
            ),
            BridgeError::AuthorizationServerNotSupported => copy_string(
                "Authorization server not supported",
            ),
            BridgeError::UserNotAllowedOnPage(m) => joined(
                "User cannot access this page ",
                m.as_str(),
            ),
            BridgeError::MCPParseIssue => copy_string("Cannot parse MCP from URL"),
            BridgeError::GeneralError(m) => m.clone(),
            BridgeError::TeraError(m) => m.clone(),
            BridgeError::SystemTimeError(m) => m.clone(),
            BridgeError::Unauthorized(m) => m.clone(),
            BridgeError::TomlError(m) => m.clone(),
            BridgeError::DeserializationError(m) => m.clone(),
            BridgeError::ClaimsVerificationError(m) => m.clone(),
            BridgeError::IOError(m) => m.clone(),
            BridgeError::URLParseError(m) => m.clone(),
            BridgeError::MongoError(m) => m.clone(),
            BridgeError::UserNotFound(m) => m.clone(),
            BridgeError::SerdeJsonError(m) => m.clone(),
            BridgeError::FormDeserializeError(m) => m.clone(),
            BridgeError::RecordSearchError(m) => m.clone(),
            BridgeError::WSError(m) => m.clone(),
            BridgeError::KubeError(m) => m.clone(),
            BridgeError::NotebookExistsError(m) => m.clone(),
            BridgeError::NotebookAccessError(m) => m.clone(),
            BridgeError::KubeClientError(m) => m.clone(),
            BridgeError::ReqwestError(m) => m.clone(),
            BridgeError::RedisError(m) => m.clone(),
            BridgeError::OpenIDError(m) => m.clone(),
            BridgeError::Argon2Error(m) => m.clone(),
            BridgeError::MSGSendError(m) => m.clone(),
            BridgeError::TokioJoinError(m) => m.clone(),
        }
    }
}

/// A token failure that means the token cannot be trusted (a bad signature,
/// claims it does not meet, a token past or before its validity, or one that
/// is no token at all) is answered as unauthorized, whatever text it holds.
pub proof fn lemma_untrusted_token_unauthorized(kind: JwtErrorKind, text: String)
    requires
        kind == JwtErrorKind::InvalidToken || kind == JwtErrorKind::InvalidSignature || kind
            == JwtErrorKind::InvalidIssuer || kind == JwtErrorKind::InvalidAudience || kind
            == JwtErrorKind::InvalidSubject || kind == JwtErrorKind::RsaFailedSigning || kind
            == JwtErrorKind::ExpiredSignature || kind == JwtErrorKind::ImmatureSignature,
    ensures
        status_of(BridgeError::JsonWebTokenError(kind, text)) == 401,
{
}

/// A token failure that comes from what the client sent being malformed (a
/// missing claim, an unknown, wrong or missing algorithm, a key in the wrong
/// format, claims that are not JSON) is answered as a bad request.
pub proof fn lemma_malformed_token_bad_request(kind: JwtErrorKind, text: String)
    requires
        kind == JwtErrorKind::MissingRequiredClaim || kind == JwtErrorKind::InvalidAlgorithmName
            || kind == JwtErrorKind::InvalidAlgorithm || kind == JwtErrorKind::MissingAlgorithm
            || kind == JwtErrorKind::InvalidKeyFormat || kind == JwtErrorKind::Json,
    ensures
        status_of(BridgeError::JsonWebTokenError(kind, text)) == 400,
{
}

/// A token failure of the bridge's own making (its keys, the encodings, the
/// cryptography, or a kind it does not know) is answered as an internal
/// server error.
pub proof fn lemma_internal_token_failure(kind: JwtErrorKind, text: String)
    requires
        kind == JwtErrorKind::InvalidEcdsaKey || kind == JwtErrorKind::InvalidRsaKey || kind
            == JwtErrorKind::Base64 || kind == JwtErrorKind::Utf8 || kind == JwtErrorKind::Crypto
            || kind == JwtErrorKind::Other,
    ensures
        status_of(BridgeError::JsonWebTokenError(kind, text)) == 500,
{
}

/// Every error is answered with a client or server error status.
pub proof fn lemma_status_is_error(e: BridgeError)
    ensures
        400 <= status_of(e) <= 599,
{
}

} // verus!
