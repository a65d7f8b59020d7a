//! The failure taxonomy of the extraction pipeline, and its mapping to
//! HTTP status codes and response bodies.

use vstd::prelude::*;

verus! {

/// Errors that can occur when extracting a JWT.
///
/// The first two variants are deployment defects (the surrounding server never
/// registered the shared configuration); the last two are client faults (a
/// missing or unacceptable credential).
#[derive(Debug, PartialEq)]
pub enum Error {
    /// No decoding key was registered for the request's scope.
    MissingDecodingKey,
    /// No validation policy was registered for the request's scope.
    MissingValidation,
    /// The `authorization` header is absent or is not `Bearer <token>`.
    MissingToken,
    /// The token failed verification; the underlying cause is kept for
    /// diagnostics but never shown to the client.
    InvalidToken(jsonwebtoken::errors::Error),
}

/// The HTTP status code that each error surfaces as: configuration defects are
/// server faults (500), credential failures are client faults (401).
pub open spec fn status_of(e: Error) -> u16 {
    match e {
        Error::MissingDecodingKey => 500,
        Error::MissingValidation => 500,
        Error::MissingToken => 401,
        Error::InvalidToken(_) => 401,
    }
}

/// The client-facing response body of each error. The body of a rejected
/// token is deliberately generic: it names no cryptographic detail.
pub open spec fn body_of(e: Error) -> Seq<char> {
    match e {
        Error::MissingDecodingKey => "missing decoding key configuration"@,
        Error::MissingValidation => "missing validation policy configuration"@,
        Error::MissingToken => "missing authorization token"@,
        Error::InvalidToken(_) => "invalid authorization token"@,
    }
}

impl Error {
    /// The HTTP status code this error surfaces as.
    pub fn status_code(&self) -> (s: u16)
        ensures
            s == status_of(*self),
    {
        match self {
            Error::MissingDecodingKey => 500,
            Error::MissingValidation => 500,
            Error::MissingToken => 401,
            Error::InvalidToken(_) => 401,
        }
    }

    /// The client-facing response body for this error.
    pub fn message(&self) -> (m: String)
        ensures
            m@ == body_of(*self),
    {
        match self {
            Error::MissingDecodingKey => "missing decoding key configuration".to_owned(),
            Error::MissingValidation => "missing validation policy configuration".to_owned(),
            Error::MissingToken => "missing authorization token".to_owned(),
            Error::InvalidToken(_) => "invalid authorization token".to_owned(),
        }
    }
}

/// Configuration failures, and only they, surface as server faults, so an
/// operator can always tell a deployment bug from a bad client credential.
pub proof fn lemma_config_faults_are_server_errors(e: Error)
    ensures
        (e is MissingDecodingKey || e is MissingValidation) <==> status_of(e) == 500,
{
}

/// Credential failures, and only they, surface as client faults.
pub proof fn lemma_credential_faults_are_client_errors(e: Error)
    ensures
        (e is MissingToken || e is InvalidToken) <==> status_of(e) == 401,
{
}

/// Whatever the underlying verification failure, the client sees one fixed,
/// generic body: the response reveals nothing of why the token was rejected.
pub proof fn lemma_invalid_token_body_is_generic(e1: Error, e2: Error)
    requires
        e1 is InvalidToken,
        e2 is InvalidToken,
    ensures
        body_of(e1) == body_of(e2),
{
}

} // verus!
