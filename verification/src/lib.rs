//! Bearer-token extraction and verification for JSON Web Tokens.
//!
//! For every protected request the pipeline runs three stages in strict
//! order, each short-circuiting with a distinct error: look up the shared
//! decoding key and validation policy, parse the `authorization` header for a
//! `Bearer` credential, and hand the raw token to the verification routine.

use vstd::prelude::*;

pub mod bearer;
pub mod errors;
pub mod token;

pub use errors::Error;
pub use token::Jwt;

verus! {

/// The configuration-lookup stage: both shared objects must be resolved
/// before any later stage runs. An absent key is reported before an absent
/// policy, and each as its own server-side error.
pub fn lookup_config<'a>(
    key: Option<&'a jsonwebtoken::DecodingKey>,
    validation: Option<&'a jsonwebtoken::Validation>,
) -> (r: Result<(&'a jsonwebtoken::DecodingKey, &'a jsonwebtoken::Validation), Error>)
    ensures
        key is None ==> (r matches Err(e) && e is MissingDecodingKey),
        (key is Some && validation is None) ==> (r matches Err(e) && e is MissingValidation),
        key matches Some(k) ==> validation matches Some(v) ==> (r matches Ok(p) && p.0 == k
            && p.1 == v),
{
    let k = match key {
        Some(k) => k,
        None => {
            return Err(Error::MissingDecodingKey);
        },
    };
    let v = match validation {
        Some(v) => v,
        None => {
            return Err(Error::MissingValidation);
        },
    };
    Ok((k, v))
}

/// The whole extraction pipeline for one request, from plain values: the
/// decoding key and validation policy as the request scope resolved them (or
/// `None` where never registered), and the raw `authorization` header value
/// (or `None` where absent).
///
/// The stages run in strict order — configuration lookup, credential
/// extraction, token verification — and each failure short-circuits with its
/// own error: a missing key or policy is reported whatever the header holds,
/// an absent or ill-formed header is `MissingToken`, and only a request with
/// resolved configuration and a well-formed `Bearer` credential reaches the
/// verification routine, whose every failure surfaces as `InvalidToken`.
pub fn from_parts<T: serde::de::DeserializeOwned>(
    key: Option<&jsonwebtoken::DecodingKey>,
    validation: Option<&jsonwebtoken::Validation>,
    auth_header: Option<&Vec<u8>>,
) -> (r: Result<Jwt<T>, Error>)
    ensures
        key is None ==> (r matches Err(e) && e is MissingDecodingKey),
        (key is Some && validation is None) ==> (r matches Err(e) && e is MissingValidation),
        (key is Some && validation is Some) ==> match auth_header {
            Some(h) => if bearer::bearer_form(h@) {
                r is Ok || (r matches Err(e) && e is InvalidToken)
            } else {
                (r matches Err(e) && e is MissingToken)
            },
            None => r matches Err(e) && e is MissingToken,
        },
{
    let (k, v) = match lookup_config(key, validation) {
        Ok(p) => p,
        Err(e) => {
            return Err(e);
        },
    };
    let tok = match bearer::extract_token(auth_header) {
        Ok(t) => t,
        Err(e) => {
            return Err(e);
        },
    };
    let outcome = token::decode_token::<T>(&tok, k, v);
    Jwt::<T>::complete_verification(outcome)
}

} // verus!
